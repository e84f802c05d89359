use photon::directory::{write_layer_def, LayerDef};
use photon::error::PhotonError;
use photon::header::{write_header, PhotonHeader, HEADER_SIZE};
use photon::loader::read_file;
use photon::progress::{NoProgress, ProgressSink};
use photon::source::ByteSource;

struct RecordingSink {
    events: Vec<(usize, usize)>,
}

impl ProgressSink for RecordingSink {
    fn layer_done(&mut self, completed: usize, total: usize) {
        self.events.push((completed, total));
    }
}

fn blank_header() -> PhotonHeader {
    PhotonHeader {
        magic: 0x4E4F544F4850u64,  // the bytes "PHOTON" and two zero bytes
        size_x_bits: 0,
        size_y_bits: 0,
        size_z_bits: 0,
        padding0_0: 0,
        padding0_1: 0,
        padding0_2: 0,
        layer_height_bits: 0,
        exposure_time_bits: 0,
        exposure_time_bottom_bits: 0,
        off_time_bits: 0,
        bottom_layers: 0,
        screen_width: 0,
        screen_height: 0,
        preview_high_res_offset: 0,
        layer_defs_offset: 0,
        num_layers: 0,
        preview_low_res_offset: 0,
        unknown6: 0,
        projection_type: 0,
        padding1_0: 0,
        padding1_1: 0,
        padding1_2: 0,
        padding1_3: 0,
        padding1_4: 0,
        padding1_5: 0,
    }
}

fn blank_def() -> LayerDef {
    LayerDef {
        layer_height_bits: 0,
        exposure_time_bits: 0,
        off_time_bits: 0,
        data_offset: 0,
        data_length: 0,
        padding_0: 0,
        padding_1: 0,
        padding_2: 0,
        padding_3: 0,
    }
}

/// One minimal well-formed file: screen 2x1, one layer whose stream is the
/// single byte 0x81 (color 1, length 1).
fn minimal_file() -> Vec<u8> {
    let mut header = blank_header();
    header.screen_width = 2;
    header.screen_height = 1;
    header.num_layers = 1;
    header.layer_defs_offset = HEADER_SIZE as i32;
    let mut def = blank_def();
    def.data_offset = (HEADER_SIZE + 36) as i32;
    def.data_length = 1;
    let mut bytes = write_header(&header);
    bytes.append(&mut write_layer_def(&def));
    bytes.push(0x81);
    bytes
}

#[test]
fn end_to_end_minimal_file() {
    let mut src = ByteSource::new(minimal_file());
    let mut progress = NoProgress {};
    let file = read_file(&mut src, &mut progress).unwrap();
    assert_eq!(file.header.screen_width, 2);
    assert_eq!(file.header.screen_height, 1);
    assert_eq!(file.num_layers(), 1);
    assert_eq!(file.layers[0], vec![255u8]);
    let image = file.layer_image(0).unwrap();
    assert_eq!(image, &vec![255u8]);
    // decoded length 1 differs from the declared 2x1 geometry
    assert_eq!(file.check_layer_sizes(), Err(PhotonError::MalformedLayer));
}

#[test]
fn layer_image_out_of_range_is_none() {
    let mut src = ByteSource::new(minimal_file());
    let mut progress = NoProgress {};
    let file = read_file(&mut src, &mut progress).unwrap();
    assert!(file.layer_image(1).is_none());
}

#[test]
fn round_trip_of_two_layers_matches_geometry() {
    // screen 2x2; layer 0 = four white pixels, layer 1 = two black then two white
    let mut header = blank_header();
    header.screen_width = 2;
    header.screen_height = 2;
    header.num_layers = 2;
    header.layer_defs_offset = HEADER_SIZE as i32;
    let data_start = HEADER_SIZE + 2 * 36;
    let mut def0 = blank_def();
    def0.data_offset = data_start as i32;
    def0.data_length = 1;
    let mut def1 = blank_def();
    def1.data_offset = (data_start + 1) as i32;
    def1.data_length = 2;
    let mut bytes = write_header(&header);
    bytes.append(&mut write_layer_def(&def0));
    bytes.append(&mut write_layer_def(&def1));
    bytes.push(0x84);  // color 1, length 4
    bytes.push(0x02);  // color 0, length 2
    bytes.push(0x82);  // color 1, length 2
    let mut src = ByteSource::new(bytes);
    let mut progress = NoProgress {};
    let file = read_file(&mut src, &mut progress).unwrap();
    assert_eq!(file.layers.len(), 2);
    assert_eq!(file.layers[0], vec![255u8, 255, 255, 255]);
    assert_eq!(file.layers[1], vec![0u8, 0, 255, 255]);
    assert_eq!(file.check_layer_sizes(), Ok(()));
}

#[test]
fn progress_is_reported_per_layer_in_order() {
    let mut header = blank_header();
    header.num_layers = 2;
    header.layer_defs_offset = HEADER_SIZE as i32;
    let data_start = HEADER_SIZE + 2 * 36;
    let mut def0 = blank_def();
    def0.data_offset = data_start as i32;
    let mut def1 = blank_def();
    def1.data_offset = data_start as i32;
    let mut bytes = write_header(&header);
    bytes.append(&mut write_layer_def(&def0));
    bytes.append(&mut write_layer_def(&def1));
    let mut src = ByteSource::new(bytes);
    let mut progress = RecordingSink { events: Vec::new() };
    read_file(&mut src, &mut progress).unwrap();
    assert_eq!(progress.events, vec![(1, 2), (2, 2)]);
}

#[test]
fn negative_layer_count_fails_the_load() {
    let mut bytes = minimal_file();
    let mut header = blank_header();
    header.screen_width = 2;
    header.screen_height = 1;
    header.num_layers = -1;
    header.layer_defs_offset = HEADER_SIZE as i32;
    bytes.splice(0..HEADER_SIZE, write_header(&header));
    let mut src = ByteSource::new(bytes);
    let mut progress = NoProgress {};
    assert_eq!(
        read_file(&mut src, &mut progress).err(),
        Some(PhotonError::Truncated)
    );
}

#[test]
fn truncated_header_fails_the_load() {
    let mut src = ByteSource::new(vec![0u8; HEADER_SIZE - 10]);
    let mut progress = NoProgress {};
    assert_eq!(
        read_file(&mut src, &mut progress).err(),
        Some(PhotonError::Truncated)
    );
}

#[test]
fn layer_offset_past_the_end_is_seek_out_of_range() {
    let mut bytes = minimal_file();
    // rewrite the descriptor's data offset to point past the end
    let mut def = blank_def();
    def.data_offset = 100000;
    def.data_length = 1;
    let rec = write_layer_def(&def);
    bytes.splice(HEADER_SIZE..HEADER_SIZE + 36, rec);
    let mut src = ByteSource::new(bytes);
    let mut progress = NoProgress {};
    assert_eq!(
        read_file(&mut src, &mut progress).err(),
        Some(PhotonError::SeekOutOfRange)
    );
}

#[test]
fn layer_span_past_the_end_is_truncated() {
    let mut bytes = minimal_file();
    let mut def = blank_def();
    def.data_offset = (HEADER_SIZE + 36) as i32;
    def.data_length = 2;  // only 1 byte is there
    let rec = write_layer_def(&def);
    bytes.splice(HEADER_SIZE..HEADER_SIZE + 36, rec);
    let mut src = ByteSource::new(bytes);
    let mut progress = NoProgress {};
    assert_eq!(
        read_file(&mut src, &mut progress).err(),
        Some(PhotonError::Truncated)
    );
}

#[test]
fn negative_layer_length_is_truncated() {
    let mut bytes = minimal_file();
    let mut def = blank_def();
    def.data_offset = (HEADER_SIZE + 36) as i32;
    def.data_length = -1;
    let rec = write_layer_def(&def);
    bytes.splice(HEADER_SIZE..HEADER_SIZE + 36, rec);
    let mut src = ByteSource::new(bytes);
    let mut progress = NoProgress {};
    assert_eq!(
        read_file(&mut src, &mut progress).err(),
        Some(PhotonError::Truncated)
    );
}

#[test]
fn error_messages_name_the_failure() {
    assert!(PhotonError::Truncated.message().contains("ended"));
    assert!(PhotonError::SeekOutOfRange.message().contains("offset"));
    assert!(PhotonError::MalformedLayer.message().contains("geometry"));
}
