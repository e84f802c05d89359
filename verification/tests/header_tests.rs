use photon::error::PhotonError;
use photon::header::{read_header, write_header, PhotonHeader, HEADER_SIZE};
use photon::source::ByteSource;

fn sample_header() -> PhotonHeader {
    PhotonHeader {
        magic: 0x12_34_56_78_9A_BC_DE_F0,
        size_x_bits: 0x42820000,  // 65.0f32
        size_y_bits: 0x42040000,  // 33.0f32
        size_z_bits: 0x43190000,  // 153.0f32
        padding0_0: 11,
        padding0_1: 22,
        padding0_2: 33,
        layer_height_bits: 0x3D4CCCCD,  // 0.05f32
        exposure_time_bits: 0x41000000,  // 8.0f32
        exposure_time_bottom_bits: 0x42700000,  // 60.0f32
        off_time_bits: 0x3F800000,  // 1.0f32
        bottom_layers: 8,
        screen_width: 1440,
        screen_height: 2560,
        preview_high_res_offset: 1000,
        layer_defs_offset: 2000,
        num_layers: 404,
        preview_low_res_offset: 3000,
        unknown6: -7,
        projection_type: 1,
        padding1_0: 1,
        padding1_1: 2,
        padding1_2: 3,
        padding1_3: 4,
        padding1_4: 5,
        padding1_5: 6,
    }
}

#[test]
fn header_round_trip_is_bit_for_bit() {
    let h = sample_header();
    let bytes = write_header(&h);
    assert_eq!(bytes.len(), HEADER_SIZE);
    let mut src = ByteSource::new(bytes);
    let back = read_header(&mut src).unwrap();
    assert_eq!(back, h);
}

#[test]
fn header_fields_are_little_endian_at_fixed_offsets() {
    let mut bytes: Vec<u8> = Vec::new();
    for i in 0..HEADER_SIZE {
        bytes.push(i as u8);
    }
    let mut src = ByteSource::new(bytes);
    let h = read_header(&mut src).unwrap();
    // magic: bytes 0..8 little-endian
    assert_eq!(h.magic, 0x0706050403020100u64);
    // size_x: bytes 8..12
    assert_eq!(h.size_x_bits, 0x0B0A0908u32);
    // screen_width: bytes 52..56
    assert_eq!(h.screen_width, 0x37363534i32);
    // layer_defs_offset: bytes 64..68
    assert_eq!(h.layer_defs_offset, 0x43424140i32);
    // num_layers: bytes 68..72
    assert_eq!(h.num_layers, 0x47464544i32);
    // last padding word: bytes 104..108
    assert_eq!(h.padding1_5, 0x6B6A6968u32);
}

#[test]
fn negative_fields_survive_the_round_trip() {
    let mut h = sample_header();
    h.bottom_layers = -1;
    h.screen_width = i32::MIN;
    h.num_layers = -123456;
    let bytes = write_header(&h);
    let mut src = ByteSource::new(bytes);
    let back = read_header(&mut src).unwrap();
    assert_eq!(back, h);
}

#[test]
fn header_shorter_than_layout_is_truncated() {
    let bytes = vec![0u8; HEADER_SIZE - 1];
    let mut src = ByteSource::new(bytes);
    assert_eq!(read_header(&mut src), Err(PhotonError::Truncated));
}

#[test]
fn empty_source_is_truncated() {
    let mut src = ByteSource::new(Vec::new());
    assert_eq!(read_header(&mut src), Err(PhotonError::Truncated));
}

#[test]
fn header_read_consumes_exactly_the_layout() {
    let mut bytes = vec![0u8; HEADER_SIZE];
    bytes.push(99);
    let mut src = ByteSource::new(bytes);
    read_header(&mut src).unwrap();
    assert_eq!(src.remaining(), 1);
}
