use scap::frame::FrameType;
use scap::sample::{
    classify_sample, frame_display_time, frame_from_raw, idle_placeholder_frame, RawVideoFormat,
    SampleDecision,
};
use scap::frame::VideoFrame;

#[test]
fn complete_samples_are_decoded() {
    assert_eq!(
        classify_sample(0, FrameType::YUVFrame),
        SampleDecision::Decode
    );
    assert_eq!(
        classify_sample(0, FrameType::BGRAFrame),
        SampleDecision::Decode
    );
}

#[test]
fn idle_samples_become_placeholders_only_for_bgra() {
    assert_eq!(
        classify_sample(1, FrameType::BGRAFrame),
        SampleDecision::IdlePlaceholder
    );
    assert_eq!(classify_sample(1, FrameType::RGB), SampleDecision::Drop);
    assert_eq!(classify_sample(1, FrameType::BGR0), SampleDecision::Drop);
}

#[test]
fn unknown_statuses_are_dropped() {
    assert_eq!(
        classify_sample(2, FrameType::BGRAFrame),
        SampleDecision::Drop
    );
    assert_eq!(classify_sample(-1, FrameType::YUVFrame), SampleDecision::Drop);
}

#[test]
fn idle_placeholder_is_zero_sized() {
    let f = idle_placeholder_frame(42);
    assert_eq!(f.display_time, 42);
    assert_eq!(f.width, 0);
    assert_eq!(f.height, 0);
    assert!(f.data.is_empty());
}

#[test]
fn raw_buffers_map_to_their_frame_variants() {
    let data = vec![1, 2, 3, 4];
    match frame_from_raw(RawVideoFormat::Rgb, 1, 1, 9, data.clone()) {
        VideoFrame::RGB(f) => {
            assert_eq!(f.display_time, 9);
            assert_eq!(f.width, 1);
            assert_eq!(f.height, 1);
            assert_eq!(f.data, data);
        }
        _ => panic!("an RGB buffer must become an RGB frame"),
    }
    assert!(matches!(
        frame_from_raw(RawVideoFormat::Rgbx, 1, 1, 0, vec![0; 4]),
        VideoFrame::RGBx(_)
    ));
    assert!(matches!(
        frame_from_raw(RawVideoFormat::Xbgr, 1, 1, 0, vec![0; 4]),
        VideoFrame::XBGR(_)
    ));
    assert!(matches!(
        frame_from_raw(RawVideoFormat::Bgrx, 1, 1, 0, vec![0; 4]),
        VideoFrame::BGRx(_)
    ));
}

#[test]
fn display_time_offsets_the_wall_clock_by_host_ticks() {
    // Sample 10 ticks in the future, timebase 3/2: 10*3/2 = 15 ns later.
    assert_eq!(frame_display_time(1_000, 50, 60, 3, 2), 1_015);
    // Sample 10 ticks in the past: 15 ns earlier.
    assert_eq!(frame_display_time(1_000, 60, 50, 3, 2), 985);
    // Same tick: the wall clock itself.
    assert_eq!(frame_display_time(1_000, 60, 60, 3, 2), 1_000);
    // Truncating division: 5 ticks at 1/3 is 1 ns.
    assert_eq!(frame_display_time(1_000, 0, 5, 1, 3), 1_001);
}
