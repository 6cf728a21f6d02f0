//! Capture engine: resolved geometry and the start/stop lifecycle.
//!
//! The engine owns one capture request (its [`Options`] and the resolved
//! [`Target`]) and its run state. Geometry is resolved in two steps: the
//! requested crop area is rounded up to even dimensions (or defaults to the
//! whole target), then the output size is the scaled crop size, clamped to
//! the requested resolution tier without ever upscaling, and floored to even
//! dimensions.

use vstd::prelude::*;

use crate::capturer::{Area, Options, Point, Resolution, Size};
use crate::targets::Target;

verus! {

/// `v` rounded up to the next even number.
pub open spec fn even_ceil(v: int) -> int {
    v + v % 2
}

/// `v` rounded down to the previous even number.
pub open spec fn even_floor(v: int) -> int {
    v - v % 2
}

/// The capture rectangle an `Options` value resolves to on a target: the
/// requested crop area with both dimensions rounded up to even numbers, or
/// the whole native target rectangle when no crop is requested.
pub open spec fn spec_crop_area(options: Options, target: Target) -> Area {
    match options.crop_area {
        Some(a) => Area {
            origin: a.origin,
            size: Size {
                width: even_ceil(a.size.width as int) as u64,
                height: even_ceil(a.size.height as int) as u64,
            },
        },
        None => Area {
            origin: Point { x: 0, y: 0 },
            size: Size { width: target.spec_dimensions().0, height: target.spec_dimensions().1 },
        },
    }
}

/// The even-rounded crop dimensions stay representable.
pub open spec fn spec_crop_dims_fit(options: Options) -> bool {
    match options.crop_area {
        Some(a) => even_ceil(a.size.width as int) <= u64::MAX && even_ceil(a.size.height as int)
            <= u64::MAX,
        None => true,
    }
}

/// The crop size scaled to native pixels by the target's DPI factor.
pub open spec fn spec_scaled_crop_size(options: Options, target: Target) -> (int, int) {
    let crop = spec_crop_area(options, target);
    (
        crop.size.width as int * target.spec_scale_factor() as int,
        crop.size.height as int * target.spec_scale_factor() as int,
    )
}

/// The requested resolution tier, shaped to the aspect ratio of the crop
/// area: the tier's width, and that width divided by the crop's aspect
/// ratio, rounded down. Meaningful only when a tier is requested.
pub open spec fn spec_tier_size(options: Options, target: Target) -> (int, int) {
    let crop = spec_crop_area(options, target);
    let tw = options.output_resolution.spec_tier_width() as int;
    (tw, tw * crop.size.height as int / crop.size.width as int)
}

/// The output frame size an `Options` value resolves to on a target: the
/// scaled crop size, clamped component-wise to the requested resolution tier
/// (never upscaled), both dimensions floored to even numbers. `Captured`
/// skips the clamp.
pub open spec fn spec_output_frame_size(options: Options, target: Target) -> (int, int) {
    let (sw, sh) = spec_scaled_crop_size(options, target);
    if options.output_resolution is Captured {
        (even_floor(sw), even_floor(sh))
    } else {
        let (tw, th) = spec_tier_size(options, target);
        (even_floor(if sw <= tw { sw } else { tw }), even_floor(if sh <= th { sh } else { th }))
    }
}

/// The machine limits under which the output size is computed exactly: the
/// scaled crop fits a `u32`, and when a tier is requested the crop is not
/// empty and the tier arithmetic stays in range.
pub open spec fn spec_output_size_fits(options: Options, target: Target) -> bool {
    let crop = spec_crop_area(options, target);
    &&& spec_crop_dims_fit(options)
    &&& spec_scaled_crop_size(options, target).0 <= u32::MAX
    &&& spec_scaled_crop_size(options, target).1 <= u32::MAX
    &&& !(options.output_resolution is Captured) ==> {
        &&& crop.size.width > 0
        &&& options.output_resolution.spec_tier_width() as int * crop.size.height as int
            <= u64::MAX
        &&& spec_tier_size(options, target).1 <= u32::MAX
    }
}

/// Whether a request stays inside the machine limits under which the
/// geometry of a capture is computed exactly: the even-rounded crop and the
/// scaled output stay representable, and a requested tier meets a non-empty
/// crop. A driver tests this before asking for an output size.
pub fn output_size_fits(options: &Options, target: &Target) -> (r: bool)
    ensures
        r == spec_output_size_fits(*options, *target),
{
    match &options.crop_area {
        Some(a) => {
            if a.size.width.checked_add(a.size.width % 2).is_none() {
                return false;
            }
            if a.size.height.checked_add(a.size.height % 2).is_none() {
                return false;
            }
        },
        None => {},
    }
    let crop = get_crop_area(options, target);
    let scale_factor = crate::targets::get_scale_factor(target);
    let scaled_w = match crop.size.width.checked_mul(scale_factor) {
        Some(v) => v,
        None => {
            return false;
        },
    };
    if scaled_w > u32::MAX as u64 {
        return false;
    }
    let scaled_h = match crop.size.height.checked_mul(scale_factor) {
        Some(v) => v,
        None => {
            return false;
        },
    };
    if scaled_h > u32::MAX as u64 {
        return false;
    }
    match options.output_resolution {
        Resolution::Captured => true,
        _ => {
            if crop.size.width == 0 {
                return false;
            }
            let tier_w = options.output_resolution.tier_width() as u64;
            let tier_area = match tier_w.checked_mul(crop.size.height) {
                Some(v) => v,
                None => {
                    return false;
                },
            };
            tier_area / crop.size.width <= u32::MAX as u64
        },
    }
}

/// Resolves the capture rectangle for a request on a target: the requested
/// crop area with width and height rounded up to even numbers, or the whole
/// target when no crop is requested.
pub fn get_crop_area(options: &Options, target: &Target) -> (r: Area)
    requires
        spec_crop_dims_fit(*options),
    ensures
        r == spec_crop_area(*options, *target),
        options.crop_area is Some ==> r.size.width % 2 == 0 && r.size.height % 2 == 0,
{
    match &options.crop_area {
        Some(a) => {
            let input_width: u64 = a.size.width + a.size.width % 2;
            let input_height: u64 = a.size.height + a.size.height % 2;
            Area {
                origin: Point { x: a.origin.x, y: a.origin.y },
                size: Size { width: input_width, height: input_height },
            }
        },
        None => {
            let (width, height) = crate::targets::get_target_dimensions(target);
            Area { origin: Point { x: 0, y: 0 }, size: Size { width, height } }
        },
    }
}

/// Resolves the output frame size for a request on a target.
///
/// The scaled crop size is clamped component-wise to the requested
/// resolution tier — a crop smaller than the tier is never upscaled — and
/// both dimensions are forced even. The returned width and height are
/// always even.
pub fn get_output_frame_size(options: &Options, target: &Target) -> (r: [u32; 2])
    requires
        spec_output_size_fits(*options, *target),
    ensures
        r@.len() == 2,
        r@[0] == spec_output_frame_size(*options, *target).0,
        r@[1] == spec_output_frame_size(*options, *target).1,
        r@[0] % 2 == 0,
        r@[1] % 2 == 0,
{
    let crop = get_crop_area(options, target);
    let scale_factor = crate::targets::get_scale_factor(target);

    let mut output_width: u32 = (crop.size.width * scale_factor) as u32;
    let mut output_height: u32 = (crop.size.height * scale_factor) as u32;

    match options.output_resolution {
        Resolution::Captured => {},
        _ => {
            let resolved = options.output_resolution.value(crop.size.width, crop.size.height);
            if resolved[0] < output_width {
                output_width = resolved[0];
            }
            if resolved[1] < output_height {
                output_height = resolved[1];
            }
        },
    }

    output_width = output_width - output_width % 2;
    output_height = output_height - output_height % 2;

    [output_width, output_height]
}

/// Clamping never upscales: when the scaled crop size already fits inside
/// the requested tier in both dimensions, the resolved output size is the
/// even-floored scaled crop size itself, not the tier size.
pub proof fn lemma_resolution_clamp_never_upscales(options: Options, target: Target)
    requires
        !(options.output_resolution is Captured),
        spec_scaled_crop_size(options, target).0 <= spec_tier_size(options, target).0,
        spec_scaled_crop_size(options, target).1 <= spec_tier_size(options, target).1,
    ensures
        spec_output_frame_size(options, target).0 == even_floor(
            spec_scaled_crop_size(options, target).0,
        ),
        spec_output_frame_size(options, target).1 == even_floor(
            spec_scaled_crop_size(options, target).1,
        ),
{
}

/// Run state of a capture engine. Within one start/stop cycle the state
/// only moves forward: `Idle -> Running -> Stopping -> Idle`.
#[derive(Debug, Clone, Copy, PartialEq, Eq, Structural)]
pub enum CaptureState {
    Idle,
    Running,
    Stopping,
}

impl CaptureState {
    /// The atomic-compatible encoding of the state.
    pub open spec fn spec_raw(self) -> u8 {
        match self {
            CaptureState::Idle => 0u8,
            CaptureState::Running => 1u8,
            CaptureState::Stopping => 2u8,
        }
    }

    /// The state an atomic-compatible encoding decodes to.
    pub open spec fn spec_from_raw(raw: u8) -> CaptureState {
        if raw == 0 {
            CaptureState::Idle
        } else if raw == 1 {
            CaptureState::Running
        } else {
            CaptureState::Stopping
        }
    }

    /// Encodes the state for storage in an atomic integer.
    pub fn to_raw(self) -> (r: u8)
        ensures
            r == self.spec_raw(),
    {
        match self {
            CaptureState::Idle => 0,
            CaptureState::Running => 1,
            CaptureState::Stopping => 2,
        }
    }

    /// Decodes a state stored in an atomic integer. Values no transition
    /// writes decode to `Stopping`, so a worker that reads one exits.
    pub fn from_raw(raw: u8) -> (s: CaptureState)
        ensures
            s == CaptureState::spec_from_raw(raw),
    {
        if raw == 0 {
            CaptureState::Idle
        } else if raw == 1 {
            CaptureState::Running
        } else {
            CaptureState::Stopping
        }
    }

    /// Decoding an encoded state gives the state back.
    pub proof fn lemma_raw_round_trip(s: CaptureState)
        ensures
            CaptureState::spec_from_raw(s.spec_raw()) == s,
    {
    }

    /// Arms the lifecycle: an idle engine starts running. Any other state
    /// is unchanged.
    pub fn arm(self) -> (s: Self)
        ensures
            s == if self is Idle {
                CaptureState::Running
            } else {
                self
            },
    {
        match self {
            CaptureState::Idle => CaptureState::Running,
            _ => self,
        }
    }

    /// Disarms the lifecycle: a running engine begins stopping. Any other
    /// state is unchanged.
    pub fn disarm(self) -> (s: Self)
        ensures
            s == if self is Running {
                CaptureState::Stopping
            } else {
                self
            },
    {
        match self {
            CaptureState::Running => CaptureState::Stopping,
            _ => self,
        }
    }

    /// Settles the lifecycle: once its worker has exited, a stopping engine
    /// is idle again. Any other state is unchanged.
    pub fn settle(self) -> (s: Self)
        ensures
            s == if self is Stopping {
                CaptureState::Idle
            } else {
                self
            },
    {
        match self {
            CaptureState::Stopping => CaptureState::Idle,
            _ => self,
        }
    }
}

/// What a poll-loop capture worker does next.
#[derive(Debug, Clone, Copy, PartialEq, Eq, Structural)]
pub enum PollAction {
    /// The session is not armed yet: wait briefly and check again.
    Wait,
    /// The session is running: iterate the native loop once.
    Iterate,
    /// The session is stopping or gone: leave the loop.
    Exit,
}

/// The decision a poll-loop capture worker takes on each turn, from the
/// lifecycle state alone: wait while idle, iterate while running, exit once
/// stopping.
pub fn next_poll_action(state: CaptureState) -> (a: PollAction)
    ensures
        state is Idle ==> a is Wait,
        state is Running ==> a is Iterate,
        state is Stopping ==> a is Exit,
{
    match state {
        CaptureState::Idle => PollAction::Wait,
        CaptureState::Running => PollAction::Iterate,
        CaptureState::Stopping => PollAction::Exit,
    }
}

/// What every concrete capture worker offers the engine: a way to begin
/// frame delivery and a way to halt it. Implementations live with the
/// native sessions that drive them.
pub trait LinuxCapturerImpl {
    /// Begins frame delivery.
    fn start_capture(&mut self);

    /// Halts frame delivery and releases the native session. Idempotent.
    fn stop_capture(&mut self);
}

/// An error reported by the poll-loop capture backend.
#[derive(Debug)]
pub struct LinCapError {
    msg: String,
}

impl LinCapError {
    /// The error message.
    pub closed spec fn spec_msg(self) -> Seq<char> {
        self.msg@
    }

    /// Wraps a backend error message.
    pub fn new(msg: String) -> (e: LinCapError)
        ensures
            e.spec_msg() == msg@,
    {
        LinCapError { msg }
    }

    /// The error message.
    pub fn message(&self) -> (r: &str)
        ensures
            r@ == self.spec_msg(),
    {
        self.msg.as_str()
    }
}

/// One capture engine: a request, the target it resolved to, and the run
/// state. An engine drives one native capture session; it cannot be
/// restarted after `stop` without being rebuilt.
pub struct Engine {
    options: Options,
    target: Target,
    state: CaptureState,
}

impl Engine {
    /// The capture request the engine was built for.
    pub closed spec fn spec_options(self) -> Options {
        self.options
    }

    /// The target the request resolved to.
    pub closed spec fn spec_target(self) -> Target {
        self.target
    }

    /// The engine's run state.
    pub closed spec fn spec_state(self) -> CaptureState {
        self.state
    }

    /// Builds an engine for a request. The capture target is the one the
    /// options name, or the given default (the primary display). The engine
    /// starts idle; no frames are produced until `start`.
    pub fn new(options: Options, default_target: Target) -> (e: Engine)
        ensures
            e.spec_state() is Idle,
            e.spec_options() == options,
            e.spec_target() == match options.target {
                Some(t) => t,
                None => default_target,
            },
    {
        let target: Target = match &options.target {
            Some(t) => t.clone(),
            None => default_target,
        };
        Engine { options, target, state: CaptureState::Idle }
    }

    /// Starts frame delivery. Starting an already-running engine is
    /// undefined for the underlying sessions, so it is ruled out.
    pub fn start(&mut self)
        requires
            old(self).spec_state() is Idle,
        ensures
            final(self).spec_state() is Running,
            final(self).spec_options() == old(self).spec_options(),
            final(self).spec_target() == old(self).spec_target(),
    {
        self.state = self.state.arm();
    }

    /// Stops frame delivery and settles the engine back to idle. Safe in
    /// every state: stopping an engine that never started is a no-op.
    pub fn stop(&mut self)
        ensures
            final(self).spec_state() is Idle,
            final(self).spec_options() == old(self).spec_options(),
            final(self).spec_target() == old(self).spec_target(),
    {
        self.state = self.state.disarm();
        self.state = self.state.settle();
    }

    /// The size, in pixels, of the frames this engine delivers.
    pub fn get_output_frame_size(&mut self) -> (r: [u32; 2])
        requires
            spec_output_size_fits(old(self).spec_options(), old(self).spec_target()),
        ensures
            *final(self) == *old(self),
            r@.len() == 2,
            r@[0] == spec_output_frame_size(old(self).spec_options(), old(self).spec_target()).0,
            r@[1] == spec_output_frame_size(old(self).spec_options(), old(self).spec_target()).1,
            r@[0] % 2 == 0,
            r@[1] % 2 == 0,
    {
        get_output_frame_size(&self.options, &self.target)
    }
}

} // verus!
