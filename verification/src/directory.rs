//! The layer directory: an on-disk array of fixed-size layer descriptors.
//!
//! The directory starts at the absolute offset `PhotonHeader.layer_defs_offset`
//! and holds `PhotonHeader.num_layers` consecutive 36-byte records, in file
//! order; a record's position in the array is its layer index, layer 0 first.

use vstd::prelude::*;
use crate::error::PhotonError;
use crate::header::PhotonHeader;
use crate::source::{ByteSource, le_u32_at, le_i32_at};
use crate::source::{write_u32_le, write_i32_le};
use crate::header::lemma_i32_bits_round_trip;

verus! {

/// Number of bytes one layer descriptor occupies.
pub const LAYER_DEF_SIZE: usize = 36;

/// One fixed-size record of the layer directory, describing where a layer's
/// run-length-encoded stream lives and how the layer is printed.
///
/// `_bits` fields hold the raw little-endian 32-bit pattern of a
/// single-precision float.  For a well-formed file,
/// `data_offset + data_length` does not exceed the file length; nothing is
/// validated at parse time.
#[derive(Clone, Copy, Debug, PartialEq, Eq, Structural)]
pub struct LayerDef {
    /// Height of this layer, raw float bits.
    pub layer_height_bits: u32,
    /// Exposure time for this layer, raw float bits.
    pub exposure_time_bits: u32,
    /// Off-time after this layer, raw float bits.
    pub off_time_bits: u32,
    /// Absolute byte offset of this layer's encoded stream.
    pub data_offset: i32,
    /// Byte length of this layer's encoded stream.
    pub data_length: i32,
    /// Reserved word.
    pub padding_0: i32,
    /// Reserved word.
    pub padding_1: i32,
    /// Reserved word.
    pub padding_2: i32,
    /// Reserved word.
    pub padding_3: i32,
}

/// The layer descriptor encoded in `data` at byte offset `base`: each field
/// read little-endian at its fixed position.
pub open spec fn parse_layer_def_at(data: Seq<u8>, base: int) -> LayerDef {
    LayerDef {
        layer_height_bits: le_u32_at(data, base),
        exposure_time_bits: le_u32_at(data, base + 4),
        off_time_bits: le_u32_at(data, base + 8),
        data_offset: le_i32_at(data, base + 12),
        data_length: le_i32_at(data, base + 16),
        padding_0: le_i32_at(data, base + 20),
        padding_1: le_i32_at(data, base + 24),
        padding_2: le_i32_at(data, base + 28),
        padding_3: le_i32_at(data, base + 32),
    }
}

/// The 36 bytes that encode `d`: every field written little-endian in the
/// documented order.
pub open spec fn layer_def_bytes(d: LayerDef) -> Seq<u8> {
    vstd::bytes::spec_u32_to_le_bytes(d.layer_height_bits)
        + vstd::bytes::spec_u32_to_le_bytes(d.exposure_time_bits)
        + vstd::bytes::spec_u32_to_le_bytes(d.off_time_bits)
        + vstd::bytes::spec_u32_to_le_bytes(d.data_offset as u32)
        + vstd::bytes::spec_u32_to_le_bytes(d.data_length as u32)
        + vstd::bytes::spec_u32_to_le_bytes(d.padding_0 as u32)
        + vstd::bytes::spec_u32_to_le_bytes(d.padding_1 as u32)
        + vstd::bytes::spec_u32_to_le_bytes(d.padding_2 as u32)
        + vstd::bytes::spec_u32_to_le_bytes(d.padding_3 as u32)
}

/// Number of records the header declares the directory to hold.  The count
/// is trusted as given: a negative value is rejected by the reader, never
/// silently clamped.
pub open spec fn directory_len(h: PhotonHeader) -> int {
    h.num_layers as int
}

/// Read one layer descriptor at the cursor, consuming exactly
/// `LAYER_DEF_SIZE` bytes.  Fails with `Truncated`, leaving the cursor
/// unchanged, exactly when fewer than `LAYER_DEF_SIZE` bytes remain.
pub fn read_layer_def(src: &mut ByteSource) -> (r: Result<LayerDef, PhotonError>)
    requires
        old(src).wf(),
    ensures
        final(src).wf(),
        final(src).bytes() == old(src).bytes(),
        r is Ok <==> old(src).cursor() + LAYER_DEF_SIZE <= old(src).bytes().len(),
        r matches Ok(d) ==> d == parse_layer_def_at(old(src).bytes(), old(src).cursor())
            && final(src).cursor() == old(src).cursor() + LAYER_DEF_SIZE,
        r is Err ==> r == Result::<LayerDef, PhotonError>::Err(PhotonError::Truncated)
            && final(src).cursor() == old(src).cursor(),
{
    if src.remaining() < LAYER_DEF_SIZE {
        return Err(PhotonError::Truncated);
    }
    let layer_height_bits = src.read_u32_le()?;
    let exposure_time_bits = src.read_u32_le()?;
    let off_time_bits = src.read_u32_le()?;
    let data_offset = src.read_i32_le()?;
    let data_length = src.read_i32_le()?;
    let padding_0 = src.read_i32_le()?;
    let padding_1 = src.read_i32_le()?;
    let padding_2 = src.read_i32_le()?;
    let padding_3 = src.read_i32_le()?;
    Ok(LayerDef {
        layer_height_bits,
        exposure_time_bits,
        off_time_bits,
        data_offset,
        data_length,
        padding_0,
        padding_1,
        padding_2,
        padding_3,
    })
}

/// Seek to `header.layer_defs_offset` and read `header.num_layers`
/// consecutive layer descriptors in file order; record `i` is read at
/// absolute offset `layer_defs_offset + i * LAYER_DEF_SIZE`.
///
/// Fails with `SeekOutOfRange` exactly when the directory offset is negative
/// or exceeds the source length, and otherwise with `Truncated` exactly when
/// the declared records cannot all be read: the source ends too early, or
/// `num_layers` is negative — a caller-visible error, never a silent clamp
/// to zero records.
pub fn read_layer_defs(src: &mut ByteSource, header: &PhotonHeader) -> (r: Result<
    Vec<LayerDef>,
    PhotonError,
>)
    requires
        old(src).wf(),
    ensures
        final(src).wf(),
        final(src).bytes() == old(src).bytes(),
        r is Ok <==> (0 <= header.num_layers && 0 <= header.layer_defs_offset
            && header.layer_defs_offset + directory_len(*header) * LAYER_DEF_SIZE
                <= old(src).bytes().len()),
        r matches Ok(v) ==> {
            &&& v@.len() == directory_len(*header)
            &&& forall|i: int| 0 <= i < v@.len() ==> v@[i] == parse_layer_def_at(
                old(src).bytes(),
                header.layer_defs_offset + i * LAYER_DEF_SIZE,
            )
            &&& final(src).cursor() == header.layer_defs_offset + directory_len(*header)
                * LAYER_DEF_SIZE
        },
        r matches Err(e) ==> (e == PhotonError::SeekOutOfRange <==> !(0 <= header.layer_defs_offset
            && header.layer_defs_offset <= old(src).bytes().len())) && (e
            == PhotonError::Truncated <==> (0 <= header.layer_defs_offset
            && header.layer_defs_offset <= old(src).bytes().len())),
{
    src.seek(header.layer_defs_offset)?;
    if header.num_layers < 0 {
        return Err(PhotonError::Truncated);
    }
    let n: usize = header.num_layers as usize;
    let base = header.layer_defs_offset as usize;
    if (src.len() - base) / LAYER_DEF_SIZE < n {
        return Err(PhotonError::Truncated);
    }
    let mut defs: Vec<LayerDef> = Vec::new();
    let mut i: usize = 0;
    while i < n
        invariant
            src.wf(),
            src.bytes() == old(src).bytes(),
            i <= n,
            base + n * LAYER_DEF_SIZE <= src.bytes().len(),
            src.cursor() == base + i * LAYER_DEF_SIZE,
            defs@.len() == i,
            forall|j: int| 0 <= j < i ==> defs@[j] == parse_layer_def_at(
                src.bytes(),
                base + j * LAYER_DEF_SIZE,
            ),
        decreases n - i,
    {
        let d = read_layer_def(src)?;
        defs.push(d);
        i = i + 1;
    }
    Ok(defs)
}

/// Encode `d` as its 36-byte fixed layout.
pub fn write_layer_def(d: &LayerDef) -> (r: Vec<u8>)
    ensures
        r@ == layer_def_bytes(*d),
{
    let mut out: Vec<u8> = Vec::new();
    write_u32_le(&mut out, d.layer_height_bits);
    write_u32_le(&mut out, d.exposure_time_bits);
    write_u32_le(&mut out, d.off_time_bits);
    write_i32_le(&mut out, d.data_offset);
    write_i32_le(&mut out, d.data_length);
    write_i32_le(&mut out, d.padding_0);
    write_i32_le(&mut out, d.padding_1);
    write_i32_le(&mut out, d.padding_2);
    write_i32_le(&mut out, d.padding_3);
    out
}

/// Writing a layer descriptor's 9 fields in the documented order and byte
/// widths and reading them back reproduces the identical field values.
pub proof fn lemma_layer_def_round_trip(d: LayerDef)
    ensures
        layer_def_bytes(d).len() == LAYER_DEF_SIZE,
        parse_layer_def_at(layer_def_bytes(d), 0) == d,
{
    vstd::bytes::lemma_auto_spec_u32_to_from_le_bytes();
    let b = layer_def_bytes(d);
    assert(b.subrange(0, 4) =~= vstd::bytes::spec_u32_to_le_bytes(d.layer_height_bits));
    assert(b.subrange(4, 8) =~= vstd::bytes::spec_u32_to_le_bytes(d.exposure_time_bits));
    assert(b.subrange(8, 12) =~= vstd::bytes::spec_u32_to_le_bytes(d.off_time_bits));
    assert(b.subrange(12, 16) =~= vstd::bytes::spec_u32_to_le_bytes(d.data_offset as u32));
    assert(b.subrange(16, 20) =~= vstd::bytes::spec_u32_to_le_bytes(d.data_length as u32));
    assert(b.subrange(20, 24) =~= vstd::bytes::spec_u32_to_le_bytes(d.padding_0 as u32));
    assert(b.subrange(24, 28) =~= vstd::bytes::spec_u32_to_le_bytes(d.padding_1 as u32));
    assert(b.subrange(28, 32) =~= vstd::bytes::spec_u32_to_le_bytes(d.padding_2 as u32));
    assert(b.subrange(32, 36) =~= vstd::bytes::spec_u32_to_le_bytes(d.padding_3 as u32));
    lemma_i32_bits_round_trip(d.data_offset);
    lemma_i32_bits_round_trip(d.data_length);
    lemma_i32_bits_round_trip(d.padding_0);
    lemma_i32_bits_round_trip(d.padding_1);
    lemma_i32_bits_round_trip(d.padding_2);
    lemma_i32_bits_round_trip(d.padding_3);
}

} // verus!
