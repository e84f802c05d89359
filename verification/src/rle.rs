//! The run-length codec for layer bitmaps.
//!
//! A layer's encoded stream is a sequence of bytes.  Each byte's most
//! significant bit selects one of two pixel intensities (0 or 255) and the
//! remaining 7 bits give a run length from 0 to 127 of that intensity.  Runs
//! concatenate in encoding order; a length of 0 contributes no pixels.  The
//! decoder performs no truncation or padding against the screen geometry;
//! reconciling the output length is the caller's concern.

use vstd::prelude::*;

verus! {

/// Run length encoded in byte `b`: its low 7 bits.
pub open spec fn run_len(b: u8) -> nat {
    (b & 0x7f) as nat
}

/// Pixel intensity encoded in byte `b`: 255 when the top bit is set, else 0.
pub open spec fn run_color(b: u8) -> u8 {
    if b >> 7 == 1 {
        255
    } else {
        0
    }
}

/// The pixels one encoded byte expands to: `run_len(b)` copies of
/// `run_color(b)`.
pub open spec fn run_pixels(b: u8) -> Seq<u8> {
    Seq::new(run_len(b), |i: int| run_color(b))
}

/// The pixels a whole encoded stream expands to: each byte's run, in
/// encoding order.
pub open spec fn rle_decoded(s: Seq<u8>) -> Seq<u8>
    decreases s.len(),
{
    if s.len() == 0 {
        Seq::empty()
    } else {
        run_pixels(s[0]) + rle_decoded(s.drop_first())
    }
}

/// Decoding extends one byte at a time: the last byte's run lands at the end.
pub proof fn lemma_rle_decoded_push(s: Seq<u8>, b: u8)
    ensures
        rle_decoded(s.push(b)) == rle_decoded(s) + run_pixels(b),
    decreases s.len(),
{
    if s.len() == 0 {
        let t = s.push(b);
        assert(t.len() == 1);
        assert(t[0] == b);
        assert(t.drop_first() =~= Seq::<u8>::empty());
        assert(rle_decoded(t) == run_pixels(b) + rle_decoded(t.drop_first()));
        assert(rle_decoded(t.drop_first()) == Seq::<u8>::empty());
        assert(rle_decoded(s) == Seq::<u8>::empty());
        assert(rle_decoded(s.push(b)) =~= rle_decoded(s) + run_pixels(b));
    } else {
        assert(s.push(b).drop_first() =~= s.drop_first().push(b));
        lemma_rle_decoded_push(s.drop_first(), b);
        assert(rle_decoded(s.push(b)) =~= rle_decoded(s) + run_pixels(b));
    }
}

/// Expand an encoded stream into a flat pixel buffer, one byte per pixel.
pub fn decode_rle(encoded: &[u8]) -> (pixels: Vec<u8>)
    ensures
        pixels@ == rle_decoded(encoded@),
{
    let mut out: Vec<u8> = Vec::new();
    let n = encoded.len();
    let mut i: usize = 0;
    while i < n
        invariant
            n == encoded@.len(),
            i <= n,
            out@ == rle_decoded(encoded@.take(i as int)),
        decreases n - i,
    {
        let b = encoded[i];
        let color = b >> 7;
        let length = b & 0x7f;
        proof {
            assert(b >> 7 == 0 || b >> 7 == 1) by (bit_vector);
        }
        let pixel = color * 255;
        proof {
            assert(run_len(b) == (b & 0x7f) as nat);
            assert((if b >> 7 == 1 { 255u8 } else { 0u8 }) == run_color(b));
        }
        let ghost out_before = out@;
        let mut j: u8 = 0;
        while j < length
            invariant
                j <= length,
                length == b & 0x7f,
                pixel == run_color(b),
                out@ == out_before + Seq::new(j as nat, |k: int| run_color(b)),
            decreases length - j,
        {
            out.push(pixel);
            j = j + 1;
            proof {
                assert(out@ =~= out_before + Seq::new(j as nat, |k: int| run_color(b)));
            }
        }
        proof {
            assert(out@ =~= out_before + run_pixels(b));
            assert(encoded@.take(i as int).push(b) =~= encoded@.take(i + 1));
            lemma_rle_decoded_push(encoded@.take(i as int), b);
        }
        i = i + 1;
    }
    proof {
        assert(encoded@.take(n as int) =~= encoded@);
    }
    out
}

/// One run of pixels to encode: a color flag and a length from 0 to 127.
#[derive(Clone, Copy, Debug, PartialEq, Eq, Structural)]
pub struct Run {
    /// True encodes intensity 255, false intensity 0.
    pub color: bool,
    /// Number of pixels in the run; only values up to 127 are encodable.
    pub length: u8,
}

/// A run's length fits in the 7 bits the format gives it.
pub open spec fn run_valid(r: Run) -> bool {
    r.length <= 127
}

/// The byte that encodes run `r`: the color flag in the top bit, the length
/// in the low 7 bits.
pub open spec fn run_byte(r: Run) -> u8 {
    if r.color {
        (128 + r.length) as u8
    } else {
        r.length
    }
}

/// The bytes that encode a sequence of runs, in order.
pub open spec fn runs_bytes(runs: Seq<Run>) -> Seq<u8> {
    runs.map_values(|r: Run| run_byte(r))
}

/// The pixels a sequence of runs stands for: each run's pixels, concatenated
/// in order, never reordered or merged.
pub open spec fn runs_pixels(runs: Seq<Run>) -> Seq<u8>
    decreases runs.len(),
{
    if runs.len() == 0 {
        Seq::empty()
    } else {
        Seq::new(runs[0].length as nat, |i: int| if runs[0].color { 255u8 } else { 0u8 })
            + runs_pixels(runs.drop_first())
    }
}

/// The byte encoding a valid run decodes back to that run's length and color.
pub proof fn lemma_run_byte_decodes(r: Run)
    requires
        run_valid(r),
    ensures
        run_len(run_byte(r)) == r.length,
        run_color(run_byte(r)) == if r.color {
            255u8
        } else {
            0u8
        },
{
    let l = r.length;
    if r.color {
        assert(l <= 127 ==> ((128 + l) as u8) & 0x7f == l) by (bit_vector);
        assert(l <= 127 ==> ((128 + l) as u8) >> 7 == 1) by (bit_vector);
    } else {
        assert(l <= 127 ==> l & 0x7f == l) by (bit_vector);
        assert(l <= 127 ==> l >> 7 == 0) by (bit_vector);
    }
}

/// Round trip: decoding the encoding of any sequence of valid runs
/// reproduces exactly the concatenation of the runs' pixels.
pub proof fn lemma_rle_round_trip(runs: Seq<Run>)
    requires
        forall|i: int| 0 <= i < runs.len() ==> run_valid(#[trigger] runs[i]),
    ensures
        rle_decoded(runs_bytes(runs)) == runs_pixels(runs),
    decreases runs.len(),
{
    if runs.len() == 0 {
        assert(runs_bytes(runs) =~= Seq::<u8>::empty());
    } else {
        let bytes = runs_bytes(runs);
        assert(bytes.len() == runs.len());
        assert(bytes[0] == run_byte(runs[0]));
        assert(bytes.drop_first() =~= runs_bytes(runs.drop_first()));
        lemma_run_byte_decodes(runs[0]);
        assert(run_pixels(bytes[0]) =~= Seq::new(
            runs[0].length as nat,
            |i: int| if runs[0].color { 255u8 } else { 0u8 },
        ));
        lemma_rle_round_trip(runs.drop_first());
        assert(rle_decoded(bytes) =~= runs_pixels(runs));
    }
}

/// Encode a sequence of runs, one byte per run, in order.
pub fn encode_runs(runs: &Vec<Run>) -> (r: Vec<u8>)
    requires
        forall|i: int| 0 <= i < runs@.len() ==> run_valid(#[trigger] runs@[i]),
    ensures
        r@ == runs_bytes(runs@),
{
    let mut out: Vec<u8> = Vec::new();
    let n = runs.len();
    let mut i: usize = 0;
    while i < n
        invariant
            n == runs@.len(),
            i <= n,
            forall|k: int| 0 <= k < runs@.len() ==> run_valid(#[trigger] runs@[k]),
            out@ =~= runs_bytes(runs@.take(i as int)),
        decreases n - i,
    {
        let run = runs[i];
        let byte: u8 = if run.color {
            128 + run.length
        } else {
            run.length
        };
        out.push(byte);
        i = i + 1;
        proof {
            assert(out@ =~= runs_bytes(runs@.take(i as int)));
        }
    }
    proof {
        assert(runs@.take(n as int) =~= runs@);
    }
    out
}

} // verus!
