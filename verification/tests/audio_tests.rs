use scap::audio::{AudioFormat, AudioFrame};

#[test]
fn sample_sizes_match_the_primitive_widths() {
    assert_eq!(AudioFormat::I8.sample_size(), 1);
    assert_eq!(AudioFormat::U8.sample_size(), 1);
    assert_eq!(AudioFormat::I16.sample_size(), 2);
    assert_eq!(AudioFormat::U16.sample_size(), 2);
    assert_eq!(AudioFormat::I32.sample_size(), 4);
    assert_eq!(AudioFormat::U32.sample_size(), 4);
    assert_eq!(AudioFormat::F32.sample_size(), 4);
    assert_eq!(AudioFormat::I64.sample_size(), 8);
    assert_eq!(AudioFormat::U64.sample_size(), 8);
    assert_eq!(AudioFormat::F64.sample_size(), 8);
}

#[test]
fn float_formats_are_recognised() {
    assert!(AudioFormat::F32.is_float());
    assert!(AudioFormat::F64.is_float());
    assert!(!AudioFormat::I16.is_float());
    assert!(!AudioFormat::U8.is_float());
}

#[test]
fn audio_frame_getters_return_what_was_stored() {
    let data: Vec<u8> = (0..8).collect();
    let frame = AudioFrame::new(AudioFormat::I16, 2, false, data.clone(), 2, 48_000, 77);
    assert_eq!(frame.channels(), 2);
    assert_eq!(frame.rate(), 48_000);
    assert!(!frame.is_planar());
    assert_eq!(frame.planes(), 1);
    assert_eq!(frame.sample_count(), 2);
    assert_eq!(frame.time(), 77);
    assert_eq!(frame.raw_data(), data.as_slice());
    assert!(matches!(frame.format(), AudioFormat::I16));
}

#[test]
fn interleaved_plane_data_is_the_whole_payload() {
    let data: Vec<u8> = (0..8).collect();
    let frame = AudioFrame::new(AudioFormat::U8, 2, false, data.clone(), 4, 44_100, 0);
    assert_eq!(frame.plane_data(0), data.as_slice());
}

#[test]
fn planar_frame_exposes_one_plane_per_channel() {
    // 2 channels, 3 samples of 1 byte each: plane 0 holds bytes 0..3,
    // plane 1 bytes 3..6.
    let data: Vec<u8> = vec![1, 2, 3, 4, 5, 6];
    let frame = AudioFrame::new(AudioFormat::U8, 2, true, data, 3, 8_000, 0);
    assert_eq!(frame.planes(), 2);
    assert_eq!(frame.plane_data(0), &[1, 2, 3]);
    assert_eq!(frame.plane_data(1), &[4, 5, 6]);
}

#[test]
fn interleaved_bytes_derive_the_sample_count() {
    // 12 bytes of stereo 16-bit samples: 12 / (2*2) = 3 samples.
    let data: Vec<u8> = vec![0; 12];
    let frame = AudioFrame::from_interleaved_bytes(AudioFormat::I16, 2, data, 44_100, 5);
    assert_eq!(frame.sample_count(), 3);
    assert_eq!(frame.channels(), 2);
    assert!(!frame.is_planar());
    assert_eq!(frame.time(), 5);
}
