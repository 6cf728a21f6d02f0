use scap::capturer::{Area, Capturer, Options, Point, Resolution, Size};
use scap::channel::FrameQueue;
use scap::engine::{next_poll_action, CaptureState, Engine, LinCapError, PollAction};
use scap::frame::{BGRAFrame, Frame, FrameType, VideoFrame};
use scap::targets::{Display, Target};

fn main_display() -> Target {
    Target::Display(Display {
        id: 1,
        title: String::from("Display 1"),
        width: 1920,
        height: 1080,
        x_offset: 0,
        y_offset: 0,
        scale_factor: 1,
    })
}

fn bgra_frame(display_time: u64) -> Frame {
    Frame::Video(VideoFrame::BGRA(BGRAFrame {
        display_time,
        width: 2,
        height: 1,
        data: vec![0; 8],
    }))
}

#[test]
fn stop_without_start_is_a_no_op() {
    let mut capturer = Capturer::build(Options::default(), main_display()).unwrap();
    // Never started: stopping must return normally, not panic or hang.
    capturer.stop_capture();
    capturer.stop_capture();
}

#[test]
fn start_then_stop_round_trip() {
    let mut capturer = Capturer::build(Options::default(), main_display()).unwrap();
    capturer.start_capture();
    capturer.stop_capture();
}

#[test]
fn build_always_succeeds_on_supported_platform() {
    assert!(scap::is_supported());
    assert!(scap::has_permission());
    assert!(scap::request_permission());
    assert!(Capturer::build(Options::default(), main_display()).is_ok());
}

#[test]
fn frames_come_back_in_delivery_order() {
    let mut capturer = Capturer::build(Options::default(), main_display()).unwrap();
    capturer.start_capture();
    for t in [10, 20, 20, 35] {
        capturer.deliver(bgra_frame(t));
    }
    let mut seen: Vec<u64> = Vec::new();
    while let Ok(frame) = capturer.get_next_frame() {
        match frame {
            Frame::Video(v) => seen.push(v.display_time()),
            Frame::Audio(_) => panic!("no audio frame was delivered"),
        }
    }
    assert_eq!(seen, vec![10, 20, 20, 35]);
    // Non-decreasing display times were delivered, so non-decreasing
    // display times came back.
    for pair in seen.windows(2) {
        assert!(pair[0] <= pair[1]);
    }
    capturer.stop_capture();
}

#[test]
fn empty_channel_reports_recv_error() {
    let mut capturer = Capturer::build(Options::default(), main_display()).unwrap();
    assert!(capturer.get_next_frame().is_err());
}

#[test]
fn facade_reports_the_resolved_output_size() {
    let options = Options {
        fps: 30,
        output_type: FrameType::RGB,
        output_resolution: Resolution::_720p,
        crop_area: Some(Area {
            origin: Point { x: 0, y: 0 },
            size: Size {
                width: 2000,
                height: 1000,
            },
        }),
        ..Default::default()
    };
    let display = Target::Display(Display {
        id: 1,
        title: String::from("Display 1"),
        width: 2560,
        height: 1440,
        x_offset: 0,
        y_offset: 0,
        scale_factor: 2,
    });
    assert!(scap::engine::output_size_fits(&options, &display));
    let mut capturer = Capturer::build(options, display).unwrap();
    assert_eq!(capturer.get_output_frame_size(), [1280, 640]);
}

#[test]
fn frame_queue_is_fifo() {
    let mut queue = FrameQueue::new();
    assert_eq!(queue.len(), 0);
    assert!(queue.recv().is_err());
    queue.send(bgra_frame(1));
    queue.send(bgra_frame(2));
    assert_eq!(queue.len(), 2);
    match queue.recv().unwrap() {
        Frame::Video(v) => assert_eq!(v.display_time(), 1),
        Frame::Audio(_) => panic!("queued a video frame"),
    }
    match queue.recv().unwrap() {
        Frame::Video(v) => assert_eq!(v.display_time(), 2),
        Frame::Audio(_) => panic!("queued a video frame"),
    }
    assert!(queue.recv().is_err());
}

#[test]
fn engine_lifecycle_settles_back_to_idle() {
    let mut engine = Engine::new(Options::default(), main_display());
    engine.start();
    engine.stop();
    engine.stop();
}

#[test]
fn capture_state_encodes_to_atomic_values() {
    assert_eq!(CaptureState::Idle.to_raw(), 0);
    assert_eq!(CaptureState::Running.to_raw(), 1);
    assert_eq!(CaptureState::Stopping.to_raw(), 2);
    for state in [
        CaptureState::Idle,
        CaptureState::Running,
        CaptureState::Stopping,
    ] {
        assert_eq!(CaptureState::from_raw(state.to_raw()), state);
    }
    assert_eq!(CaptureState::from_raw(97), CaptureState::Stopping);
}

#[test]
fn named_transitions_follow_the_lifecycle() {
    assert_eq!(CaptureState::Idle.arm(), CaptureState::Running);
    assert_eq!(CaptureState::Running.arm(), CaptureState::Running);
    assert_eq!(CaptureState::Running.disarm(), CaptureState::Stopping);
    assert_eq!(CaptureState::Idle.disarm(), CaptureState::Idle);
    assert_eq!(CaptureState::Stopping.settle(), CaptureState::Idle);
    assert_eq!(CaptureState::Idle.settle(), CaptureState::Idle);
}

#[test]
fn poll_action_tracks_lifecycle_state() {
    assert_eq!(next_poll_action(CaptureState::Idle), PollAction::Wait);
    assert_eq!(next_poll_action(CaptureState::Running), PollAction::Iterate);
    assert_eq!(next_poll_action(CaptureState::Stopping), PollAction::Exit);
}

#[test]
fn lin_cap_error_keeps_its_message() {
    let e = LinCapError::new(String::from("stream disconnected"));
    assert_eq!(e.message(), "stream disconnected");
}
