use photon::directory::{read_layer_defs, write_layer_def, LayerDef, LAYER_DEF_SIZE};
use photon::error::PhotonError;
use photon::header::{write_header, PhotonHeader};
use photon::source::ByteSource;

fn blank_header() -> PhotonHeader {
    PhotonHeader {
        magic: 0,
        size_x_bits: 0,
        size_y_bits: 0,
        size_z_bits: 0,
        padding0_0: 0,
        padding0_1: 0,
        padding0_2: 0,
        layer_height_bits: 0,
        exposure_time_bits: 0,
        exposure_time_bottom_bits: 0,
        off_time_bits: 0,
        bottom_layers: 0,
        screen_width: 0,
        screen_height: 0,
        preview_high_res_offset: 0,
        layer_defs_offset: 0,
        num_layers: 0,
        preview_low_res_offset: 0,
        unknown6: 0,
        projection_type: 0,
        padding1_0: 0,
        padding1_1: 0,
        padding1_2: 0,
        padding1_3: 0,
        padding1_4: 0,
        padding1_5: 0,
    }
}

fn sample_def(tag: i32) -> LayerDef {
    LayerDef {
        layer_height_bits: 0x3D4CCCCD,
        exposure_time_bits: 0x41000000,
        off_time_bits: 0x3F800000,
        data_offset: 1000 + tag,
        data_length: 50 + tag,
        padding_0: tag,
        padding_1: -tag,
        padding_2: 0,
        padding_3: 7,
    }
}

#[test]
fn three_records_are_read_at_their_offsets() {
    // a little unrelated data ahead of the directory, so the offset matters
    let mut bytes = vec![0xAAu8; 10];
    for tag in 0..3 {
        let mut rec = write_layer_def(&sample_def(tag));
        assert_eq!(rec.len(), LAYER_DEF_SIZE);
        bytes.append(&mut rec);
    }
    let mut header = blank_header();
    header.layer_defs_offset = 10;
    header.num_layers = 3;
    let mut src = ByteSource::new(bytes);
    let defs = read_layer_defs(&mut src, &header).unwrap();
    assert_eq!(defs.len(), 3);
    for tag in 0..3 {
        assert_eq!(defs[tag as usize], sample_def(tag));
    }
}

#[test]
fn layer_def_round_trip_is_bit_for_bit() {
    let d = sample_def(5);
    let bytes = write_layer_def(&d);
    let mut header = blank_header();
    header.layer_defs_offset = 0;
    header.num_layers = 1;
    let mut src = ByteSource::new(bytes);
    let defs = read_layer_defs(&mut src, &header).unwrap();
    assert_eq!(defs, vec![d]);
}

#[test]
fn zero_layers_reads_nothing() {
    let mut header = blank_header();
    header.layer_defs_offset = 0;
    header.num_layers = 0;
    let mut src = ByteSource::new(vec![1, 2, 3]);
    let defs = read_layer_defs(&mut src, &header).unwrap();
    assert_eq!(defs.len(), 0);
}

#[test]
fn negative_layer_count_is_an_error() {
    let mut header = blank_header();
    header.layer_defs_offset = 0;
    header.num_layers = -4;
    let mut src = ByteSource::new(vec![1, 2, 3]);
    assert_eq!(read_layer_defs(&mut src, &header), Err(PhotonError::Truncated));
}

#[test]
fn short_directory_is_truncated() {
    // two full records and part of a third
    let mut bytes = Vec::new();
    for tag in 0..2 {
        bytes.append(&mut write_layer_def(&sample_def(tag)));
    }
    bytes.extend_from_slice(&[0u8; 18]);
    let mut header = blank_header();
    header.layer_defs_offset = 0;
    header.num_layers = 3;
    let mut src = ByteSource::new(bytes);
    assert_eq!(read_layer_defs(&mut src, &header), Err(PhotonError::Truncated));
}

#[test]
fn directory_offset_past_the_end_is_seek_out_of_range() {
    let mut header = blank_header();
    header.layer_defs_offset = 100;
    header.num_layers = 1;
    let mut src = ByteSource::new(vec![0u8; 50]);
    assert_eq!(read_layer_defs(&mut src, &header), Err(PhotonError::SeekOutOfRange));
}

#[test]
fn negative_directory_offset_is_seek_out_of_range() {
    let mut header = blank_header();
    header.layer_defs_offset = -1;
    header.num_layers = 0;
    let mut src = ByteSource::new(vec![0u8; 50]);
    assert_eq!(read_layer_defs(&mut src, &header), Err(PhotonError::SeekOutOfRange));
}

#[test]
fn header_field_order_feeds_the_directory() {
    // write a header whose directory immediately follows it, then one record
    let mut header = blank_header();
    header.layer_defs_offset = 108;
    header.num_layers = 1;
    let mut bytes = write_header(&header);
    bytes.append(&mut write_layer_def(&sample_def(9)));
    let mut src = ByteSource::new(bytes);
    let parsed = photon::header::read_header(&mut src).unwrap();
    assert_eq!(parsed, header);
    let defs = read_layer_defs(&mut src, &parsed).unwrap();
    assert_eq!(defs, vec![sample_def(9)]);
}
