use scap::capturer::{Area, Options, Point, Resolution, Size};
use scap::engine::{get_crop_area, get_output_frame_size, output_size_fits};
use scap::frame::FrameType;
use scap::targets::{Display, Target};

fn display(width: u64, height: u64, scale_factor: u64) -> Target {
    Target::Display(Display {
        id: 1,
        title: String::from("Display 1"),
        width,
        height,
        x_offset: 0,
        y_offset: 0,
        scale_factor,
    })
}

fn crop(width: u64, height: u64) -> Option<Area> {
    Some(Area {
        origin: Point { x: 0, y: 0 },
        size: Size { width, height },
    })
}

#[test]
fn scaled_crop_clamped_to_720p_tier() {
    // A 2000x1000 crop on a scale-factor-2 display scales to 4000x2000,
    // then clamps to the 720p tier computed against aspect ratio 2.0.
    let options = Options {
        fps: 30,
        output_type: FrameType::RGB,
        output_resolution: Resolution::_720p,
        crop_area: crop(2000, 1000),
        ..Default::default()
    };
    let target = display(2560, 1440, 2);
    assert_eq!(get_output_frame_size(&options, &target), [1280, 640]);
}

#[test]
fn small_crop_is_never_upscaled() {
    // A crop far smaller than the requested tier resolves to its own
    // (even-rounded) scaled size, not the tier size.
    let options = Options {
        output_resolution: Resolution::_4320p,
        crop_area: crop(100, 50),
        ..Default::default()
    };
    let target = display(1920, 1080, 1);
    assert_eq!(get_output_frame_size(&options, &target), [100, 50]);
}

#[test]
fn odd_crop_is_rounded_up_before_scaling() {
    let options = Options {
        output_resolution: Resolution::Captured,
        crop_area: crop(3, 5),
        ..Default::default()
    };
    let target = display(1920, 1080, 1);
    assert_eq!(get_output_frame_size(&options, &target), [4, 6]);
}

#[test]
fn odd_native_size_is_floored_to_even() {
    let options = Options {
        output_resolution: Resolution::Captured,
        crop_area: None,
        ..Default::default()
    };
    let target = display(101, 77, 1);
    assert_eq!(get_output_frame_size(&options, &target), [100, 76]);
}

#[test]
fn output_size_is_always_even() {
    let tiers = [
        Resolution::_480p,
        Resolution::_720p,
        Resolution::_1080p,
        Resolution::_1440p,
        Resolution::_2160p,
        Resolution::_4320p,
        Resolution::Captured,
    ];
    for tier in tiers {
        for (w, h) in [(99, 33), (640, 480), (1, 1), (1919, 1079)] {
            let options = Options {
                output_resolution: tier,
                crop_area: crop(w, h),
                ..Default::default()
            };
            let target = display(4000, 4000, 1);
            let [ow, oh] = get_output_frame_size(&options, &target);
            assert_eq!(ow % 2, 0);
            assert_eq!(oh % 2, 0);
        }
    }
}

#[test]
fn out_of_range_requests_are_detected() {
    // Scaled beyond u32: 3_000_000 logical points at scale factor 4000.
    let options = Options {
        crop_area: crop(3_000_000, 1_000),
        ..Default::default()
    };
    assert!(!output_size_fits(&options, &display(4_000_000, 4_000_000, 4_000)));

    // A tier request on an empty crop has no aspect ratio to divide by.
    let options = Options {
        output_resolution: Resolution::_720p,
        crop_area: crop(0, 100),
        ..Default::default()
    };
    assert!(!output_size_fits(&options, &display(1920, 1080, 1)));

    // An ordinary request is in range.
    let options = Options {
        output_resolution: Resolution::_720p,
        crop_area: crop(2000, 1000),
        ..Default::default()
    };
    assert!(output_size_fits(&options, &display(2560, 1440, 2)));
}

#[test]
fn tier_height_follows_aspect_ratio() {
    let r = Resolution::_480p;
    assert_eq!(r.value(640, 480), [640, 480]);
    let r = Resolution::_1080p;
    assert_eq!(r.value(1000, 1000), [1920, 1920]);
}

#[test]
fn crop_area_rounds_dimensions_up_to_even() {
    let options = Options {
        crop_area: Some(Area {
            origin: Point { x: 10, y: 20 },
            size: Size {
                width: 145,
                height: 50,
            },
        }),
        ..Default::default()
    };
    let target = display(1920, 1080, 1);
    let area = get_crop_area(&options, &target);
    assert_eq!(area.origin.x, 10);
    assert_eq!(area.origin.y, 20);
    assert_eq!(area.size.width, 146);
    assert_eq!(area.size.height, 50);
}

#[test]
fn missing_crop_area_defaults_to_whole_target() {
    let options = Options::default();
    let target = display(1920, 1080, 2);
    let area = get_crop_area(&options, &target);
    assert_eq!(area.origin.x, 0);
    assert_eq!(area.origin.y, 0);
    assert_eq!(area.size.width, 1920);
    assert_eq!(area.size.height, 1080);
}
