//! The fixed-layout file header.
//!
//! The header occupies the first 108 bytes of a Photon file: an 8-byte magic
//! tag followed by 25 little-endian 32-bit fields in a fixed order.  No
//! semantic validation of the magic tag or field ranges is performed; any
//! 8 bytes are accepted as the magic value.  Callers needing strict format
//! detection must add their own check.
//!
//! Fields that the printer interprets as IEEE-754 single-precision values
//! (sizes, layer height, exposure times) are carried as their raw 32-bit
//! little-endian bit patterns; interpreting them as floats is the caller's
//! concern.  The parser never computes with them.

use vstd::prelude::*;
use crate::error::PhotonError;
use crate::source::{ByteSource, le_u32_at, le_i32_at, le_u64_at};
use crate::source::{write_u32_le, write_i32_le, write_u64_le};

verus! {

/// Number of bytes the header occupies.
pub const HEADER_SIZE: usize = 108;

/// Global geometry and offsets of a Photon file, read from its first
/// 108 bytes.  Immutable once read.
///
/// `_bits` fields hold the raw little-endian 32-bit pattern of a
/// single-precision float.  Offsets are absolute byte positions from the
/// start of the file; for a well-formed file they are non-negative and
/// within file bounds, but nothing is validated at parse time.
#[derive(Clone, Copy, Debug, PartialEq, Eq, Structural)]
pub struct PhotonHeader {
    /// 8-byte magic tag, as the little-endian `u64` of those bytes.
    pub magic: u64,
    /// Print volume size along X, raw float bits.
    pub size_x_bits: u32,
    /// Print volume size along Y, raw float bits.
    pub size_y_bits: u32,
    /// Print volume size along Z, raw float bits.
    pub size_z_bits: u32,
    /// First reserved word.
    pub padding0_0: u32,
    /// Second reserved word.
    pub padding0_1: u32,
    /// Third reserved word.
    pub padding0_2: u32,
    /// Layer height, raw float bits.
    pub layer_height_bits: u32,
    /// Exposure time, raw float bits.
    pub exposure_time_bits: u32,
    /// Bottom-layer exposure time, raw float bits.
    pub exposure_time_bottom_bits: u32,
    /// Off-time between layers, raw float bits.
    pub off_time_bits: u32,
    /// Number of bottom layers.
    pub bottom_layers: i32,
    /// Screen width in pixels.
    pub screen_width: i32,
    /// Screen height in pixels.
    pub screen_height: i32,
    /// Byte offset of the high-resolution preview.
    pub preview_high_res_offset: i32,
    /// Byte offset of the layer directory.
    pub layer_defs_offset: i32,
    /// Number of layer descriptors in the directory.
    pub num_layers: i32,
    /// Byte offset of the low-resolution preview.
    pub preview_low_res_offset: i32,
    /// Unknown field, carried through unchanged.
    pub unknown6: i32,
    /// Projection-type code.
    pub projection_type: i32,
    /// Reserved word.
    pub padding1_0: u32,
    /// Reserved word.
    pub padding1_1: u32,
    /// Reserved word.
    pub padding1_2: u32,
    /// Reserved word.
    pub padding1_3: u32,
    /// Reserved word.
    pub padding1_4: u32,
    /// Reserved word.
    pub padding1_5: u32,
}

/// The header encoded in `data` at byte offset `base`: each field read
/// little-endian at its fixed position.
pub open spec fn parse_header_at(data: Seq<u8>, base: int) -> PhotonHeader {
    PhotonHeader {
        magic: le_u64_at(data, base),
        size_x_bits: le_u32_at(data, base + 8),
        size_y_bits: le_u32_at(data, base + 12),
        size_z_bits: le_u32_at(data, base + 16),
        padding0_0: le_u32_at(data, base + 20),
        padding0_1: le_u32_at(data, base + 24),
        padding0_2: le_u32_at(data, base + 28),
        layer_height_bits: le_u32_at(data, base + 32),
        exposure_time_bits: le_u32_at(data, base + 36),
        exposure_time_bottom_bits: le_u32_at(data, base + 40),
        off_time_bits: le_u32_at(data, base + 44),
        bottom_layers: le_i32_at(data, base + 48),
        screen_width: le_i32_at(data, base + 52),
        screen_height: le_i32_at(data, base + 56),
        preview_high_res_offset: le_i32_at(data, base + 60),
        layer_defs_offset: le_i32_at(data, base + 64),
        num_layers: le_i32_at(data, base + 68),
        preview_low_res_offset: le_i32_at(data, base + 72),
        unknown6: le_i32_at(data, base + 76),
        projection_type: le_i32_at(data, base + 80),
        padding1_0: le_u32_at(data, base + 84),
        padding1_1: le_u32_at(data, base + 88),
        padding1_2: le_u32_at(data, base + 92),
        padding1_3: le_u32_at(data, base + 96),
        padding1_4: le_u32_at(data, base + 100),
        padding1_5: le_u32_at(data, base + 104),
    }
}

/// The 108 bytes that encode `h`: every field written little-endian in the
/// documented order.
pub open spec fn header_bytes(h: PhotonHeader) -> Seq<u8> {
    vstd::bytes::spec_u64_to_le_bytes(h.magic)
        + vstd::bytes::spec_u32_to_le_bytes(h.size_x_bits)
        + vstd::bytes::spec_u32_to_le_bytes(h.size_y_bits)
        + vstd::bytes::spec_u32_to_le_bytes(h.size_z_bits)
        + vstd::bytes::spec_u32_to_le_bytes(h.padding0_0)
        + vstd::bytes::spec_u32_to_le_bytes(h.padding0_1)
        + vstd::bytes::spec_u32_to_le_bytes(h.padding0_2)
        + vstd::bytes::spec_u32_to_le_bytes(h.layer_height_bits)
        + vstd::bytes::spec_u32_to_le_bytes(h.exposure_time_bits)
        + vstd::bytes::spec_u32_to_le_bytes(h.exposure_time_bottom_bits)
        + vstd::bytes::spec_u32_to_le_bytes(h.off_time_bits)
        + vstd::bytes::spec_u32_to_le_bytes(h.bottom_layers as u32)
        + vstd::bytes::spec_u32_to_le_bytes(h.screen_width as u32)
        + vstd::bytes::spec_u32_to_le_bytes(h.screen_height as u32)
        + vstd::bytes::spec_u32_to_le_bytes(h.preview_high_res_offset as u32)
        + vstd::bytes::spec_u32_to_le_bytes(h.layer_defs_offset as u32)
        + vstd::bytes::spec_u32_to_le_bytes(h.num_layers as u32)
        + vstd::bytes::spec_u32_to_le_bytes(h.preview_low_res_offset as u32)
        + vstd::bytes::spec_u32_to_le_bytes(h.unknown6 as u32)
        + vstd::bytes::spec_u32_to_le_bytes(h.projection_type as u32)
        + vstd::bytes::spec_u32_to_le_bytes(h.padding1_0)
        + vstd::bytes::spec_u32_to_le_bytes(h.padding1_1)
        + vstd::bytes::spec_u32_to_le_bytes(h.padding1_2)
        + vstd::bytes::spec_u32_to_le_bytes(h.padding1_3)
        + vstd::bytes::spec_u32_to_le_bytes(h.padding1_4)
        + vstd::bytes::spec_u32_to_le_bytes(h.padding1_5)
}

/// Read the fixed header at the cursor, consuming exactly `HEADER_SIZE`
/// bytes.  Fails with `Truncated`, leaving the cursor unchanged, exactly
/// when fewer than `HEADER_SIZE` bytes remain.
pub fn read_header(src: &mut ByteSource) -> (r: Result<PhotonHeader, PhotonError>)
    requires
        old(src).wf(),
    ensures
        final(src).wf(),
        final(src).bytes() == old(src).bytes(),
        r is Ok <==> old(src).cursor() + HEADER_SIZE <= old(src).bytes().len(),
        r matches Ok(h) ==> h == parse_header_at(old(src).bytes(), old(src).cursor())
            && final(src).cursor() == old(src).cursor() + HEADER_SIZE,
        r is Err ==> r == Result::<PhotonHeader, PhotonError>::Err(PhotonError::Truncated)
            && final(src).cursor() == old(src).cursor(),
{
    if src.remaining() < HEADER_SIZE {
        return Err(PhotonError::Truncated);
    }
    let magic = src.read_u64_le()?;
    let size_x_bits = src.read_u32_le()?;
    let size_y_bits = src.read_u32_le()?;
    let size_z_bits = src.read_u32_le()?;
    let padding0_0 = src.read_u32_le()?;
    let padding0_1 = src.read_u32_le()?;
    let padding0_2 = src.read_u32_le()?;
    let layer_height_bits = src.read_u32_le()?;
    let exposure_time_bits = src.read_u32_le()?;
    let exposure_time_bottom_bits = src.read_u32_le()?;
    let off_time_bits = src.read_u32_le()?;
    let bottom_layers = src.read_i32_le()?;
    let screen_width = src.read_i32_le()?;
    let screen_height = src.read_i32_le()?;
    let preview_high_res_offset = src.read_i32_le()?;
    let layer_defs_offset = src.read_i32_le()?;
    let num_layers = src.read_i32_le()?;
    let preview_low_res_offset = src.read_i32_le()?;
    let unknown6 = src.read_i32_le()?;
    let projection_type = src.read_i32_le()?;
    let padding1_0 = src.read_u32_le()?;
    let padding1_1 = src.read_u32_le()?;
    let padding1_2 = src.read_u32_le()?;
    let padding1_3 = src.read_u32_le()?;
    let padding1_4 = src.read_u32_le()?;
    let padding1_5 = src.read_u32_le()?;
    Ok(PhotonHeader {
        magic,
        size_x_bits,
        size_y_bits,
        size_z_bits,
        padding0_0,
        padding0_1,
        padding0_2,
        layer_height_bits,
        exposure_time_bits,
        exposure_time_bottom_bits,
        off_time_bits,
        bottom_layers,
        screen_width,
        screen_height,
        preview_high_res_offset,
        layer_defs_offset,
        num_layers,
        preview_low_res_offset,
        unknown6,
        projection_type,
        padding1_0,
        padding1_1,
        padding1_2,
        padding1_3,
        padding1_4,
        padding1_5,
    })
}

/// Encode `h` as its 108-byte fixed layout.
pub fn write_header(h: &PhotonHeader) -> (r: Vec<u8>)
    ensures
        r@ == header_bytes(*h),
{
    let mut out: Vec<u8> = Vec::new();
    write_u64_le(&mut out, h.magic);
    write_u32_le(&mut out, h.size_x_bits);
    write_u32_le(&mut out, h.size_y_bits);
    write_u32_le(&mut out, h.size_z_bits);
    write_u32_le(&mut out, h.padding0_0);
    write_u32_le(&mut out, h.padding0_1);
    write_u32_le(&mut out, h.padding0_2);
    write_u32_le(&mut out, h.layer_height_bits);
    write_u32_le(&mut out, h.exposure_time_bits);
    write_u32_le(&mut out, h.exposure_time_bottom_bits);
    write_u32_le(&mut out, h.off_time_bits);
    write_i32_le(&mut out, h.bottom_layers);
    write_i32_le(&mut out, h.screen_width);
    write_i32_le(&mut out, h.screen_height);
    write_i32_le(&mut out, h.preview_high_res_offset);
    write_i32_le(&mut out, h.layer_defs_offset);
    write_i32_le(&mut out, h.num_layers);
    write_i32_le(&mut out, h.preview_low_res_offset);
    write_i32_le(&mut out, h.unknown6);
    write_i32_le(&mut out, h.projection_type);
    write_u32_le(&mut out, h.padding1_0);
    write_u32_le(&mut out, h.padding1_1);
    write_u32_le(&mut out, h.padding1_2);
    write_u32_le(&mut out, h.padding1_3);
    write_u32_le(&mut out, h.padding1_4);
    write_u32_le(&mut out, h.padding1_5);
    out
}

/// Reinterpreting a signed 32-bit value as unsigned and back is the identity.
pub proof fn lemma_i32_bits_round_trip(x: i32)
    ensures
        ((x as u32) as i32) == x,
{
    assert(((x as u32) as i32) == x) by (bit_vector);
}

/// Writing a header's 25 fields in the documented order and byte widths and
/// reading them back reproduces the identical field values, bit for bit.
#[verifier::rlimit(60)]
pub proof fn lemma_header_round_trip(h: PhotonHeader)
    ensures
        header_bytes(h).len() == HEADER_SIZE,
        parse_header_at(header_bytes(h), 0) == h,
{
    vstd::bytes::lemma_auto_spec_u32_to_from_le_bytes();
    vstd::bytes::lemma_auto_spec_u64_to_from_le_bytes();
    let b = header_bytes(h);
    assert(b.subrange(0, 8) =~= vstd::bytes::spec_u64_to_le_bytes(h.magic));
    assert(b.subrange(8, 12) =~= vstd::bytes::spec_u32_to_le_bytes(h.size_x_bits));
    assert(b.subrange(12, 16) =~= vstd::bytes::spec_u32_to_le_bytes(h.size_y_bits));
    assert(b.subrange(16, 20) =~= vstd::bytes::spec_u32_to_le_bytes(h.size_z_bits));
    assert(b.subrange(20, 24) =~= vstd::bytes::spec_u32_to_le_bytes(h.padding0_0));
    assert(b.subrange(24, 28) =~= vstd::bytes::spec_u32_to_le_bytes(h.padding0_1));
    assert(b.subrange(28, 32) =~= vstd::bytes::spec_u32_to_le_bytes(h.padding0_2));
    assert(b.subrange(32, 36) =~= vstd::bytes::spec_u32_to_le_bytes(h.layer_height_bits));
    assert(b.subrange(36, 40) =~= vstd::bytes::spec_u32_to_le_bytes(h.exposure_time_bits));
    assert(b.subrange(40, 44) =~= vstd::bytes::spec_u32_to_le_bytes(h.exposure_time_bottom_bits));
    assert(b.subrange(44, 48) =~= vstd::bytes::spec_u32_to_le_bytes(h.off_time_bits));
    assert(b.subrange(48, 52) =~= vstd::bytes::spec_u32_to_le_bytes(h.bottom_layers as u32));
    assert(b.subrange(52, 56) =~= vstd::bytes::spec_u32_to_le_bytes(h.screen_width as u32));
    assert(b.subrange(56, 60) =~= vstd::bytes::spec_u32_to_le_bytes(h.screen_height as u32));
    assert(b.subrange(60, 64) =~= vstd::bytes::spec_u32_to_le_bytes(h.preview_high_res_offset as u32));
    assert(b.subrange(64, 68) =~= vstd::bytes::spec_u32_to_le_bytes(h.layer_defs_offset as u32));
    assert(b.subrange(68, 72) =~= vstd::bytes::spec_u32_to_le_bytes(h.num_layers as u32));
    assert(b.subrange(72, 76) =~= vstd::bytes::spec_u32_to_le_bytes(h.preview_low_res_offset as u32));
    assert(b.subrange(76, 80) =~= vstd::bytes::spec_u32_to_le_bytes(h.unknown6 as u32));
    assert(b.subrange(80, 84) =~= vstd::bytes::spec_u32_to_le_bytes(h.projection_type as u32));
    assert(b.subrange(84, 88) =~= vstd::bytes::spec_u32_to_le_bytes(h.padding1_0));
    assert(b.subrange(88, 92) =~= vstd::bytes::spec_u32_to_le_bytes(h.padding1_1));
    assert(b.subrange(92, 96) =~= vstd::bytes::spec_u32_to_le_bytes(h.padding1_2));
    assert(b.subrange(96, 100) =~= vstd::bytes::spec_u32_to_le_bytes(h.padding1_3));
    assert(b.subrange(100, 104) =~= vstd::bytes::spec_u32_to_le_bytes(h.padding1_4));
    assert(b.subrange(104, 108) =~= vstd::bytes::spec_u32_to_le_bytes(h.padding1_5));
    lemma_i32_bits_round_trip(h.bottom_layers);
    lemma_i32_bits_round_trip(h.screen_width);
    lemma_i32_bits_round_trip(h.screen_height);
    lemma_i32_bits_round_trip(h.preview_high_res_offset);
    lemma_i32_bits_round_trip(h.layer_defs_offset);
    lemma_i32_bits_round_trip(h.num_layers);
    lemma_i32_bits_round_trip(h.preview_low_res_offset);
    lemma_i32_bits_round_trip(h.unknown6);
    lemma_i32_bits_round_trip(h.projection_type);
}

} // verus!
