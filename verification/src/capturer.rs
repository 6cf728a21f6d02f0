//! Capture options and the resolution tiers a caller can ask for.
//!
//! [`Options`] is the immutable capture request: frame rate, cursor
//! visibility, the target to capture, an optional crop rectangle, the pixel
//! format to deliver, and an optional output-resolution tier. The geometry
//! derived from an `Options` value lives in [`crate::engine`].

use vstd::prelude::*;

use crate::channel::{FrameQueue, RecvError};
use crate::engine::{spec_output_frame_size, spec_output_size_fits, Engine};
use crate::frame::{Frame, FrameType};
use crate::targets::Target;

pub use crate::engine::get_output_frame_size;

verus! {

/// A named output-resolution tier, or `Captured` for the size the capture
/// session produced.
#[derive(Debug, Clone, Copy, Default)]
pub enum Resolution {
    _480p,
    _720p,
    _1080p,
    _1440p,
    _2160p,
    _4320p,
    #[default]
    Captured,
}

impl Resolution {
    /// The pixel width of a named tier (0 for `Captured`, which names no
    /// size of its own).
    pub open spec fn spec_tier_width(self) -> u32 {
        match self {
            Resolution::_480p => 640u32,
            Resolution::_720p => 1280u32,
            Resolution::_1080p => 1920u32,
            Resolution::_1440p => 2560u32,
            Resolution::_2160p => 3840u32,
            Resolution::_4320p => 7680u32,
            Resolution::Captured => 0u32,
        }
    }

    /// The pixel width of a named tier (0 for `Captured`).
    pub fn tier_width(&self) -> (r: u32)
        ensures
            r == self.spec_tier_width(),
    {
        match self {
            Resolution::_480p => 640,
            Resolution::_720p => 1280,
            Resolution::_1080p => 1920,
            Resolution::_1440p => 2560,
            Resolution::_2160p => 3840,
            Resolution::_4320p => 7680,
            Resolution::Captured => 0,
        }
    }

    /// The `[width, height]` of this tier for content with the aspect ratio
    /// of a `crop_width` by `crop_height` rectangle: the tier's own width,
    /// and that width divided by the aspect ratio, rounded down.
    ///
    /// `Captured` names no size, so asking it for one is a caller error and
    /// is ruled out.
    pub fn value(&self, crop_width: u64, crop_height: u64) -> (r: [u32; 2])
        requires
            !(*self is Captured),
            crop_width > 0,
            self.spec_tier_width() as int * crop_height as int <= u64::MAX,
            self.spec_tier_width() as int * crop_height as int / crop_width as int <= u32::MAX,
        ensures
            r@.len() == 2,
            r@[0] == self.spec_tier_width(),
            r@[1] == self.spec_tier_width() as int * crop_height as int / crop_width as int,
    {
        let tier_width: u32 = match self {
            Resolution::_480p => 640,
            Resolution::_720p => 1280,
            Resolution::_1080p => 1920,
            Resolution::_1440p => 2560,
            Resolution::_2160p => 3840,
            Resolution::_4320p => 7680,
            Resolution::Captured => 0,
        };
        let tier_height: u64 = (tier_width as u64) * crop_height / crop_width;
        [tier_width, tier_height as u32]
    }
}

/// A position in target-native units.
#[derive(Debug, Default, Clone, Copy)]
pub struct Point {
    pub x: i64,
    pub y: i64,
}

/// A size in target-native units.
#[derive(Debug, Default, Clone, Copy)]
pub struct Size {
    pub width: u64,
    pub height: u64,
}

/// A rectangle in target-native units.
#[derive(Debug, Default, Clone, Copy)]
pub struct Area {
    pub origin: Point,
    pub size: Size,
}

/// Options passed to the screen capturer.
#[derive(Debug, Default, Clone)]
pub struct Options {
    pub fps: u32,
    pub show_cursor: bool,
    pub show_highlight: bool,
    /// The surface to capture; the primary display when absent.
    pub target: Option<Target>,
    /// A sub-rectangle of the target to capture; the whole target when
    /// absent.
    pub crop_area: Option<Area>,
    /// The pixel layout frames are delivered in.
    pub output_type: FrameType,
    /// A resolution tier to clamp the output size to.
    pub output_resolution: Resolution,
    /// Windows to leave out of the captured content.
    pub excluded_targets: Option<Vec<Target>>,
    /// Whether an audio stream is captured alongside the video frames.
    pub captures_audio: bool,
    pub exclude_current_process_audio: bool,
}

/// Why a capturer could not be built.
#[derive(Debug)]
pub enum CapturerBuildError {
    NotSupported,
    PermissionNotGranted,
}

impl CapturerBuildError {
    /// A human-readable description of the error.
    pub fn message(&self) -> (r: &'static str)
        ensures
            *self is NotSupported ==> r@ == "Screen capturing is not supported"@,
            *self is PermissionNotGranted ==> r@
                == "Permission to capture the screen is not granted"@,
    {
        match self {
            CapturerBuildError::NotSupported => "Screen capturing is not supported",
            CapturerBuildError::PermissionNotGranted => {
                "Permission to capture the screen is not granted"
            },
        }
    }
}

/// Screen capturer: the engine for one capture request and the receiving
/// end of the frame channel. Capture workers deliver decoded frames through
/// [`Capturer::deliver`]; the consumer pulls them with
/// [`Capturer::get_next_frame`].
pub struct Capturer {
    engine: Engine,
    queue: FrameQueue,
}

impl Capturer {
    /// The engine this capturer drives.
    pub closed spec fn spec_engine(self) -> Engine {
        self.engine
    }

    /// The frames delivered and not yet pulled, oldest first.
    pub closed spec fn spec_frames(self) -> Seq<Frame> {
        self.queue@
    }

    /// Builds a capturer for a request, after checking platform support and
    /// screen-capture permission. The capture target is the one the options
    /// name, or the given primary display. The capturer starts idle with an
    /// empty frame channel.
    pub fn build(options: Options, main_display: Target) -> (r: Result<
        Capturer,
        CapturerBuildError,
    >)
        ensures
            r is Ok,
            r->Ok_0.spec_engine().spec_state() is Idle,
            r->Ok_0.spec_engine().spec_options() == options,
            r->Ok_0.spec_engine().spec_target() == match options.target {
                Some(t) => t,
                None => main_display,
            },
            r->Ok_0.spec_frames() == Seq::<Frame>::empty(),
    {
        if !crate::is_supported() {
            return Err(CapturerBuildError::NotSupported);
        }
        if !crate::has_permission() {
            return Err(CapturerBuildError::PermissionNotGranted);
        }
        let engine = Engine::new(options, main_display);
        Ok(Capturer { engine, queue: FrameQueue::new() })
    }

    /// Starts capturing frames. Starting twice without an intervening stop
    /// is undefined for the native sessions, so it is ruled out.
    pub fn start_capture(&mut self)
        requires
            old(self).spec_engine().spec_state() is Idle,
        ensures
            final(self).spec_engine().spec_state() is Running,
            final(self).spec_engine().spec_options() == old(self).spec_engine().spec_options(),
            final(self).spec_engine().spec_target() == old(self).spec_engine().spec_target(),
            final(self).spec_frames() == old(self).spec_frames(),
    {
        self.engine.start();
    }

    /// Stops the capturer and settles it back to idle. Safe to call even
    /// when capture was never started: it is a no-op then, never a panic.
    pub fn stop_capture(&mut self)
        ensures
            final(self).spec_engine().spec_state() is Idle,
            final(self).spec_engine().spec_options() == old(self).spec_engine().spec_options(),
            final(self).spec_engine().spec_target() == old(self).spec_engine().spec_target(),
            final(self).spec_frames() == old(self).spec_frames(),
    {
        self.engine.stop();
    }

    /// Delivers a decoded frame into the channel: the adapter boundary a
    /// capture worker feeds. The frame is queued after every frame already
    /// pending.
    pub fn deliver(&mut self, frame: Frame)
        ensures
            final(self).spec_frames() == old(self).spec_frames().push(frame),
            final(self).spec_engine() == old(self).spec_engine(),
    {
        self.queue.send(frame);
    }

    /// Pulls the next captured frame. Frames come back in exactly the order
    /// they were delivered. An empty channel reports [`RecvError`] instead
    /// of blocking; the driver around the capturer decides whether to poll
    /// again or treat the session as ended.
    pub fn get_next_frame(&mut self) -> (r: Result<Frame, RecvError>)
        ensures
            old(self).spec_frames().len() > 0 ==> r is Ok && r->Ok_0 == old(self).spec_frames()[0]
                && final(self).spec_frames() == old(self).spec_frames().drop_first(),
            old(self).spec_frames().len() == 0 ==> r is Err && final(self).spec_frames() == old(
                self,
            ).spec_frames(),
            final(self).spec_engine() == old(self).spec_engine(),
    {
        self.queue.recv()
    }

    /// The size, in pixels, of the frames this capturer delivers. Both
    /// dimensions are always even.
    pub fn get_output_frame_size(&mut self) -> (r: [u32; 2])
        requires
            spec_output_size_fits(
                old(self).spec_engine().spec_options(),
                old(self).spec_engine().spec_target(),
            ),
        ensures
            *final(self) == *old(self),
            r@.len() == 2,
            r@[0] == spec_output_frame_size(
                old(self).spec_engine().spec_options(),
                old(self).spec_engine().spec_target(),
            ).0,
            r@[1] == spec_output_frame_size(
                old(self).spec_engine().spec_options(),
                old(self).spec_engine().spec_target(),
            ).1,
            r@[0] % 2 == 0,
            r@[1] % 2 == 0,
    {
        self.engine.get_output_frame_size()
    }
}

} // verus!
