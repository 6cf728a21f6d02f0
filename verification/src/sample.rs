//! Decisions taken on a native sample at the adapter boundary.
//!
//! A capture session delivers raw samples with a status code, a host
//! timestamp and a negotiated pixel layout. Everything the adapter decides
//! about such a sample — whether to decode it, synthesize an idle
//! placeholder or drop it, which frame variant wraps the payload, and what
//! wall-clock display time it carries — is computed here on plain values;
//! only the copies out of OS-owned buffers happen outside.

use vstd::prelude::*;

use crate::frame::{BGRAFrame, BGRxFrame, FrameType, RGBFrame, RGBxFrame, VideoFrame, XBGRFrame};

verus! {

/// What the adapter does with one delivered video sample.
#[derive(Debug, Clone, Copy, PartialEq, Eq, Structural)]
pub enum SampleDecision {
    /// The sample is complete: decode its payload into a frame.
    Decode,
    /// The screen content is unchanged: send a zero-sized placeholder frame
    /// so the consumer's pull loop stays alive.
    IdlePlaceholder,
    /// The sample is unusable: drop it before it reaches the channel.
    Drop,
}

/// Decides what to do with a video sample from its status code: a complete
/// sample (status 0) is decoded; an idle sample (status 1) becomes a
/// placeholder only when BGRA frames were requested, since only that layout
/// has a zero-sized form; every other status is dropped at the adapter
/// boundary and never reaches the channel.
pub fn classify_sample(status: i32, output_type: FrameType) -> (d: SampleDecision)
    ensures
        status == 0 ==> d is Decode,
        status == 1 && output_type is BGRAFrame ==> d is IdlePlaceholder,
        status == 1 && !(output_type is BGRAFrame) ==> d is Drop,
        status != 0 && status != 1 ==> d is Drop,
{
    if status == 0 {
        SampleDecision::Decode
    } else if status == 1 {
        match output_type {
            FrameType::BGRAFrame => SampleDecision::IdlePlaceholder,
            _ => SampleDecision::Drop,
        }
    } else {
        SampleDecision::Drop
    }
}

/// The zero-sized BGRA frame that stands in for "no new content": a
/// liveness heartbeat, not picture data.
pub fn idle_placeholder_frame(display_time: u64) -> (f: BGRAFrame)
    ensures
        f.display_time == display_time,
        f.width == 0,
        f.height == 0,
        f.data@.len() == 0,
{
    BGRAFrame { display_time, width: 0, height: 0, data: Vec::new() }
}

/// The raw pixel layouts a media-server capture session can negotiate.
#[derive(Debug, Clone, Copy, PartialEq, Eq, Structural)]
pub enum RawVideoFormat {
    Rgb,
    Rgba,
    Rgbx,
    Xbgr,
    Bgrx,
}

/// Wraps the payload of a negotiated raw buffer in the video-frame variant
/// matching its layout. `Rgba` has no frame variant, so a session that
/// negotiated it cannot deliver frames; that layout is ruled out here and
/// the adapter fails the session instead.
pub fn frame_from_raw(
    format: RawVideoFormat,
    width: i32,
    height: i32,
    display_time: u64,
    data: Vec<u8>,
) -> (f: VideoFrame)
    requires
        !(format is Rgba),
    ensures
        format is Rgb ==> (f matches VideoFrame::RGB(g) && g.display_time == display_time
            && g.width == width && g.height == height && g.data@ == data@),
        format is Rgbx ==> (f matches VideoFrame::RGBx(g) && g.display_time == display_time
            && g.width == width && g.height == height && g.data@ == data@),
        format is Xbgr ==> (f matches VideoFrame::XBGR(g) && g.display_time == display_time
            && g.width == width && g.height == height && g.data@ == data@),
        format is Bgrx ==> (f matches VideoFrame::BGRx(g) && g.display_time == display_time
            && g.width == width && g.height == height && g.data@ == data@),
{
    match format {
        RawVideoFormat::Rgb => VideoFrame::RGB(RGBFrame { display_time, width, height, data }),
        RawVideoFormat::Rgbx => VideoFrame::RGBx(RGBxFrame { display_time, width, height, data }),
        RawVideoFormat::Xbgr => VideoFrame::XBGR(XBGRFrame { display_time, width, height, data }),
        RawVideoFormat::Bgrx | RawVideoFormat::Rgba => VideoFrame::BGRx(
            BGRxFrame { display_time, width, height, data },
        ),
    }
}

/// The wall-clock display time of a sample, in nanoseconds.
///
/// A native session timestamps samples with a host tick counter. The
/// adapter reads the wall clock and the tick counter at delivery time, takes
/// the tick difference to the sample's own tick stamp, converts it to
/// nanoseconds with the host timebase `numer / denom`, and offsets the wall
/// clock by it — forwards when the sample is in the future, backwards when
/// it is in the past.
pub fn frame_display_time(
    sys_wall_nanos: u64,
    sys_host_time: u64,
    frame_host_time: u64,
    numer: u32,
    denom: u32,
) -> (t: u64)
    requires
        denom > 0,
        frame_host_time >= sys_host_time ==> sys_wall_nanos + (frame_host_time - sys_host_time)
            * (numer as int) / (denom as int) <= u64::MAX,
        frame_host_time < sys_host_time ==> (sys_host_time - frame_host_time) * (numer as int) / (
        denom as int) <= sys_wall_nanos,
    ensures
        frame_host_time >= sys_host_time ==> t == sys_wall_nanos + (frame_host_time
            - sys_host_time) * (numer as int) / (denom as int),
        frame_host_time < sys_host_time ==> t == sys_wall_nanos - (sys_host_time
            - frame_host_time) * (numer as int) / (denom as int),
{
    if frame_host_time >= sys_host_time {
        let diff: u128 = (frame_host_time - sys_host_time) as u128;
        proof {
            assert((diff as int) * (numer as int) <= u128::MAX) by (nonlinear_arith)
                requires
                    diff <= u64::MAX,
                    numer <= u32::MAX,
            ;
        }
        let nanos: u128 = diff * (numer as u128) / (denom as u128);
        sys_wall_nanos + (nanos as u64)
    } else {
        let diff: u128 = (sys_host_time - frame_host_time) as u128;
        proof {
            assert((diff as int) * (numer as int) <= u128::MAX) by (nonlinear_arith)
                requires
                    diff <= u64::MAX,
                    numer <= u32::MAX,
            ;
        }
        let nanos: u128 = diff * (numer as u128) / (denom as u128);
        sys_wall_nanos - (nanos as u64)
    }
}

} // verus!
