//! Loading a whole Photon file: header, directory, then every layer's pixels.
//!
//! The loader reads the header at the cursor, seeks to the layer directory,
//! reads every descriptor, then seeks to each layer's byte span and expands
//! its run-length-encoded stream.  It fails fast: any failure aborts the
//! whole load and no partial document is returned.

use vstd::prelude::*;
use crate::error::PhotonError;
use crate::header::{PhotonHeader, HEADER_SIZE, parse_header_at, read_header};
use crate::directory::{LayerDef, LAYER_DEF_SIZE, parse_layer_def_at, directory_len, read_layer_defs};
use crate::rle::{rle_decoded, decode_rle};
use crate::progress::ProgressSink;
use crate::source::ByteSource;

verus! {

/// A layer's seek target lies inside the source.
pub open spec fn layer_seek_ok(data: Seq<u8>, d: LayerDef) -> bool {
    0 <= d.data_offset && d.data_offset <= data.len()
}

/// A layer's whole byte span lies inside the source.
pub open spec fn layer_span_ok(data: Seq<u8>, d: LayerDef) -> bool {
    &&& layer_seek_ok(data, d)
    &&& 0 <= d.data_length
    &&& d.data_offset + d.data_length <= data.len()
}

/// The error a bad layer span produces: `SeekOutOfRange` when the offset
/// itself lies outside the source, `Truncated` when the offset is fine but
/// the span runs past the end (a negative length reads as a span that can
/// never be satisfied).
pub open spec fn layer_error(data: Seq<u8>, d: LayerDef) -> PhotonError {
    if !layer_seek_ok(data, d) {
        PhotonError::SeekOutOfRange
    } else {
        PhotonError::Truncated
    }
}

/// The encoded byte span of one layer.
pub open spec fn layer_data(data: Seq<u8>, d: LayerDef) -> Seq<u8> {
    data.subrange(d.data_offset as int, d.data_offset + d.data_length)
}

/// The pixels one layer decodes to.
pub open spec fn layer_pixels(data: Seq<u8>, d: LayerDef) -> Seq<u8> {
    rle_decoded(layer_data(data, d))
}

/// The directory entry `i` of the file whose bytes are `data`, as the header
/// `h` places it.
pub open spec fn dir_entry(data: Seq<u8>, h: PhotonHeader, i: int) -> LayerDef {
    parse_layer_def_at(data, h.layer_defs_offset + i * LAYER_DEF_SIZE)
}

/// The header declares a readable directory: a non-negative record count
/// whose records all lie inside the source.
pub open spec fn directory_ok(data: Seq<u8>, h: PhotonHeader) -> bool {
    &&& 0 <= h.num_layers
    &&& 0 <= h.layer_defs_offset
    &&& h.layer_defs_offset + directory_len(h) * LAYER_DEF_SIZE <= data.len()
}

/// Decode every layer: for each descriptor in order, seek to its data
/// offset, read exactly its declared byte length, and expand the stream.
/// Reports each completed layer to `progress`.
///
/// Fails on the first descriptor whose span is bad: with `SeekOutOfRange`
/// when its offset lies outside the source, else with `Truncated`.
pub fn read_layers<P: ProgressSink>(
    src: &mut ByteSource,
    defs: &Vec<LayerDef>,
    progress: &mut P,
) -> (r: Result<Vec<Vec<u8>>, PhotonError>)
    requires
        old(src).wf(),
    ensures
        final(src).wf(),
        final(src).bytes() == old(src).bytes(),
        r is Ok <==> (forall|i: int|
            0 <= i < defs@.len() ==> layer_span_ok(old(src).bytes(), #[trigger] defs@[i])),
        r matches Ok(v) ==> v@.len() == defs@.len() && (forall|i: int|
            0 <= i < defs@.len() ==> v@[i]@ == layer_pixels(old(src).bytes(), #[trigger] defs@[i])),
        r matches Err(e) ==> (exists|k: int|
            0 <= k < defs@.len() && !layer_span_ok(old(src).bytes(), #[trigger] defs@[k]) && (
            forall|j: int| 0 <= j < k ==> layer_span_ok(old(src).bytes(), #[trigger] defs@[j]))
                && e == layer_error(old(src).bytes(), defs@[k])),
{
    let total = defs.len();
    let mut layers: Vec<Vec<u8>> = Vec::new();
    let mut i: usize = 0;
    while i < total
        invariant
            src.wf(),
            src.bytes() == old(src).bytes(),
            total == defs@.len(),
            i <= total,
            layers@.len() == i,
            forall|j: int| 0 <= j < i ==> layer_span_ok(src.bytes(), #[trigger] defs@[j]),
            forall|j: int|
                0 <= j < i ==> layers@[j]@ == layer_pixels(src.bytes(), #[trigger] defs@[j]),
        decreases total - i,
    {
        let d = defs[i];
        match src.seek(d.data_offset) {
            Ok(()) => (),
            Err(e) => {
                return Err(e);
            },
        }
        if d.data_length < 0 {
            return Err(PhotonError::Truncated);
        }
        let buf = match src.read_bytes(d.data_length as usize) {
            Ok(b) => b,
            Err(e) => {
                return Err(e);
            },
        };
        let layer = decode_rle(buf.as_slice());
        layers.push(layer);
        i = i + 1;
        progress.layer_done(i, total);
    }
    Ok(layers)
}

/// One loaded Photon file: the header, the layer directory in file order,
/// and the decoded pixel buffer of each layer at the same index.  Owned as a
/// single unit; nothing is mutated after construction.
pub struct PhotonFile {
    /// The fixed file header.
    pub header: PhotonHeader,
    /// The layer directory; index = layer number.
    pub layer_defs: Vec<LayerDef>,
    /// One decoded pixel buffer per directory entry, same order.
    pub layers: Vec<Vec<u8>>,
}

/// Pixels a layer must hold to match the header's screen geometry.
pub open spec fn expected_pixel_count(h: PhotonHeader) -> int {
    h.screen_width * h.screen_height
}

impl PhotonFile {
    /// Number of decoded layers.
    pub fn num_layers(&self) -> (n: usize)
        ensures
            n == self.layers@.len(),
    {
        self.layers.len()
    }

    /// The decoded pixel buffer of layer `index`, or `None` exactly when the
    /// index is out of range.
    pub fn layer_image(&self, index: usize) -> (r: Option<&Vec<u8>>)
        ensures
            r is Some <==> index < self.layers@.len(),
            r matches Some(v) ==> v@ == self.layers@[index as int]@,
    {
        if index < self.layers.len() {
            Some(&self.layers[index])
        } else {
            None
        }
    }

    /// Check every decoded layer against the declared screen geometry.
    /// Returns `MalformedLayer` exactly when some layer's pixel count
    /// differs from `screen_width * screen_height`.
    pub fn check_layer_sizes(&self) -> (r: Result<(), PhotonError>)
        ensures
            r is Ok <==> (forall|i: int|
                0 <= i < self.layers@.len() ==> #[trigger] self.layers@[i]@.len()
                    == expected_pixel_count(self.header)),
            r is Err ==> r == Result::<(), PhotonError>::Err(PhotonError::MalformedLayer),
    {
        let w = self.header.screen_width;
        let h = self.header.screen_height;
        proof {
            assert((w as int) * (h as int) <= 0x4000_0000_0000_0000 && -0x4000_0000_0000_0000
                <= (w as int) * (h as int)) by (nonlinear_arith)
                requires
                    -0x8000_0000 <= w as int <= 0x7fff_ffff,
                    -0x8000_0000 <= h as int <= 0x7fff_ffff,
            ;
        }
        let expected: i64 = (w as i64) * (h as i64);
        let n = self.layers.len();
        let mut i: usize = 0;
        while i < n
            invariant
                n == self.layers@.len(),
                i <= n,
                expected == expected_pixel_count(self.header),
                forall|j: int|
                    0 <= j < i ==> #[trigger] self.layers@[j]@.len() == expected_pixel_count(
                        self.header,
                    ),
            decreases n - i,
        {
            let len_ok: bool = if expected < 0 {
                false
            } else {
                self.layers[i].len() as u64 == expected as u64
            };
            if !len_ok {
                proof {
                    assert(self.layers@[i as int]@.len() != expected_pixel_count(self.header));
                }
                return Err(PhotonError::MalformedLayer);
            }
            i = i + 1;
        }
        Ok(())
    }
}

/// Load a whole file from the byte source: header at the cursor, then the
/// layer directory, then every layer's pixels, reporting progress per layer.
/// Any failure aborts the load; no partial document is returned.
///
/// On success the document holds exactly the header parsed at the starting
/// cursor, the `directory_len` descriptors the header places, and one
/// decoded pixel buffer per descriptor, in file order.
pub fn read_file<P: ProgressSink>(src: &mut ByteSource, progress: &mut P) -> (r: Result<
    PhotonFile,
    PhotonError,
>)
    requires
        old(src).wf(),
    ensures
        final(src).wf(),
        final(src).bytes() == old(src).bytes(),
        r is Ok <==> ({
            let data = old(src).bytes();
            let h = parse_header_at(data, old(src).cursor());
            &&& old(src).cursor() + HEADER_SIZE <= data.len()
            &&& directory_ok(data, h)
            &&& forall|i: int|
                0 <= i < directory_len(h) ==> layer_span_ok(data, #[trigger] dir_entry(data, h, i))
        }),
        r matches Ok(f) ==> ({
            let data = old(src).bytes();
            let h = parse_header_at(data, old(src).cursor());
            &&& f.header == h
            &&& f.layer_defs@.len() == directory_len(h)
            &&& forall|i: int|
                0 <= i < directory_len(h) ==> f.layer_defs@[i] == #[trigger] dir_entry(data, h, i)
            &&& f.layers@.len() == directory_len(h)
            &&& forall|i: int|
                0 <= i < directory_len(h) ==> f.layers@[i]@ == layer_pixels(
                    data,
                    #[trigger] dir_entry(data, h, i),
                )
        }),
        r matches Err(e) ==> ({
            let data = old(src).bytes();
            let h = parse_header_at(data, old(src).cursor());
            &&& (old(src).cursor() + HEADER_SIZE > data.len() ==> e == PhotonError::Truncated)
            &&& (old(src).cursor() + HEADER_SIZE <= data.len() && !(0 <= h.layer_defs_offset
                && h.layer_defs_offset <= data.len()) ==> e == PhotonError::SeekOutOfRange)
            &&& (old(src).cursor() + HEADER_SIZE <= data.len() && 0 <= h.layer_defs_offset
                && h.layer_defs_offset <= data.len() && !directory_ok(data, h) ==> e
                == PhotonError::Truncated)
            &&& (old(src).cursor() + HEADER_SIZE <= data.len() && directory_ok(data, h)
                ==> exists|k: int|
                    0 <= k < directory_len(h) && !layer_span_ok(
                        data,
                        #[trigger] dir_entry(data, h, k),
                    ) && (forall|j: int|
                        0 <= j < k ==> layer_span_ok(data, #[trigger] dir_entry(data, h, j))) && e
                        == layer_error(data, dir_entry(data, h, k)))
        }),
{
    let ghost data = old(src).bytes();
    let ghost start = old(src).cursor();
    let header = match read_header(src) {
        Ok(h) => h,
        Err(e) => {
            return Err(e);
        },
    };
    let ghost h = parse_header_at(data, start);
    let layer_defs = match read_layer_defs(src, &header) {
        Ok(v) => v,
        Err(e) => {
            return Err(e);
        },
    };
    proof {
        assert forall|i: int| 0 <= i < directory_len(h) implies layer_defs@[i]
            == #[trigger] dir_entry(data, h, i) by {
            assert(layer_defs@[i] == parse_layer_def_at(data, h.layer_defs_offset + i
                * LAYER_DEF_SIZE));
        }
    }
    let layers = match read_layers(src, &layer_defs, progress) {
        Ok(v) => v,
        Err(e) => {
            proof {
                let k = choose|k: int|
                    0 <= k < layer_defs@.len() && !layer_span_ok(data, #[trigger] layer_defs@[k])
                        && (forall|j: int|
                        0 <= j < k ==> layer_span_ok(data, #[trigger] layer_defs@[j])) && e
                        == layer_error(data, layer_defs@[k]);
                assert(0 <= k < directory_len(h) && !layer_span_ok(
                    data,
                    dir_entry(data, h, k),
                ) && (forall|j: int|
                    0 <= j < k ==> layer_span_ok(data, #[trigger] dir_entry(data, h, j))) && e
                    == layer_error(data, dir_entry(data, h, k)));
            }
            return Err(e);
        },
    };
    proof {
        assert forall|i: int| 0 <= i < directory_len(h) implies layers@[i]@ == layer_pixels(
            data,
            #[trigger] dir_entry(data, h, i),
        ) by {
            assert(layers@[i]@ == layer_pixels(data, layer_defs@[i]));
        }
        assert forall|i: int|
            0 <= i < directory_len(h) implies layer_span_ok(
            data,
            #[trigger] dir_entry(data, h, i),
        ) by {
            assert(layer_span_ok(data, layer_defs@[i]));
        }
    }
    Ok(PhotonFile { header, layer_defs, layers })
}

} // verus!
