//! Progress reporting during layer decoding.
//!
//! Decoding a file can take a while; the loader reports after each layer
//! completes through a caller-supplied sink instead of writing to a console,
//! so that loading composes with non-interactive callers.

use vstd::prelude::*;

verus! {

/// Receives one event per decoded layer.
pub trait ProgressSink {
    /// Called after a layer finishes decoding, with the number of layers
    /// completed so far (starting at 1) and the total layer count.
    fn layer_done(&mut self, completed: usize, total: usize);
}

/// A sink that ignores every event.
pub struct NoProgress {
}

impl ProgressSink for NoProgress {
    fn layer_done(&mut self, _completed: usize, _total: usize) {
    }
}

} // verus!
