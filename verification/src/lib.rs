//! Cross-platform screen-capture engine: a verified frame pipeline.
//!
//! The library owns the pure core of a capture engine: geometry resolution
//! (crop areas, output sizes), pixel-format normalization, cursor
//! compositing, the start/stop lifecycle, and the frame channel that hands
//! captured frames to a consumer. Native capture sessions live outside the
//! library and feed it plain values.

use vstd::prelude::*;

pub mod audio;
pub mod capturer;
pub mod channel;
pub mod cursor;
pub mod encoder;
pub mod engine;
pub mod frame;
pub mod sample;
pub mod targets;

pub use targets::{Display, Target};

verus! {

/// Whether screen capture is supported on the current system.
///
/// The engine targets capture services that are always present on the
/// platforms this build runs on, so the check always passes.
pub fn is_supported() -> (r: bool)
    ensures
        r,
{
    true
}

/// Whether the process has permission to capture the screen.
///
/// The capture services this build targets grant access at session setup,
/// so no separate permission gate exists.
pub fn has_permission() -> (r: bool)
    ensures
        r,
{
    true
}

/// Prompts the user to grant screen-capture permission to the process.
/// Returns whether permission is granted afterwards.
pub fn request_permission() -> (r: bool)
    ensures
        r,
{
    true
}

} // verus!
