//! The frame channel between capture workers and the consumer.
//!
//! Capture sessions decode native samples into [`Frame`] values and deliver
//! them here in arrival order; the consumer pulls them out in the same
//! order. The channel is a strict FIFO: no frame overtakes another, so a
//! backend that delivers frames with non-decreasing display times hands the
//! consumer a non-decreasing sequence of display times.

use vstd::prelude::*;

use crate::frame::Frame;

verus! {

/// The display time of a frame: a video frame's presentation time, an audio
/// frame's capture time. In nanoseconds.
pub open spec fn spec_frame_time(f: Frame) -> u64 {
    match f {
        Frame::Video(v) => v.spec_display_time(),
        Frame::Audio(a) => a.spec_time(),
    }
}

/// Receiving failed: the channel holds no frame. The session has ended, or
/// no sample has been delivered yet.
#[derive(Debug, Clone, Copy)]
pub struct RecvError;

/// The frame channel: workers push decoded frames in delivery order and the
/// consumer pops them in the same order.
pub struct FrameQueue {
    items: Vec<Frame>,
}

impl View for FrameQueue {
    type V = Seq<Frame>;

    closed spec fn view(&self) -> Seq<Frame> {
        self.items@
    }
}

impl FrameQueue {
    /// An empty channel.
    pub fn new() -> (q: FrameQueue)
        ensures
            q@ == Seq::<Frame>::empty(),
    {
        FrameQueue { items: Vec::new() }
    }

    /// Delivers a frame: it is queued after every frame already pending.
    pub fn send(&mut self, frame: Frame)
        ensures
            final(self)@ == old(self)@.push(frame),
    {
        self.items.push(frame);
    }

    /// Receives the oldest pending frame. Frames leave in exactly the order
    /// they were delivered; an empty channel reports [`RecvError`] instead
    /// of blocking.
    pub fn recv(&mut self) -> (r: Result<Frame, RecvError>)
        ensures
            old(self)@.len() > 0 ==> r is Ok && r->Ok_0 == old(self)@[0] && final(self)@ == old(
                self,
            )@.drop_first(),
            old(self)@.len() == 0 ==> r is Err && final(self)@ == old(self)@,
    {
        if self.items.len() == 0 {
            Err(RecvError)
        } else {
            Ok(self.items.remove(0))
        }
    }

    /// How many frames are pending.
    pub fn len(&self) -> (n: usize)
        ensures
            n == self@.len(),
    {
        self.items.len()
    }
}

/// Frames are received in delivery order, so display times stay monotone:
/// when every delivered frame's display time is no earlier than the frame
/// delivered just before it, any later-received frame of the same run has a
/// display time no earlier than any earlier-received one.
pub proof fn lemma_received_times_monotonic(delivered: Seq<Frame>, i: int, j: int)
    requires
        forall|k: int|
            0 <= k < delivered.len() - 1 ==> spec_frame_time(#[trigger] delivered[k])
                <= spec_frame_time(delivered[k + 1]),
        0 <= i <= j < delivered.len(),
    ensures
        spec_frame_time(delivered[i]) <= spec_frame_time(delivered[j]),
    decreases j - i,
{
    if i < j {
        lemma_received_times_monotonic(delivered, i, j - 1);
        assert(spec_frame_time(delivered[j - 1]) <= spec_frame_time(delivered[j]));
    }
}

} // verus!
