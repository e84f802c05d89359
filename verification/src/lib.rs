//! Reader for the binary "Photon" slice-file format used by resin 3D
//! printers.  A file holds a fixed-layout little-endian header, a directory
//! of fixed-size layer descriptors, and one run-length-encoded bitmap per
//! print layer.  The library parses all three from an in-memory byte source
//! and expands each layer into a flat pixel buffer; opening the file and
//! exporting images are left to the caller.

pub mod error;
pub mod source;
pub mod header;
pub mod directory;
pub mod rle;
pub mod progress;
pub mod loader;
