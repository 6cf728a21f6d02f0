//! Audio frame value type.
//!
//! A capture session that also records audio interleaves [`AudioFrame`]
//! samples into the same channel as video frames. The frame owns its raw
//! bytes; its invariant guarantees the payload is large enough for the
//! advertised sample count, sample size and channel count, so plane access
//! never reads out of bounds.

use vstd::prelude::*;

verus! {

/// The primitive sample type of an audio stream.
#[non_exhaustive]
#[derive(Debug, Clone, Copy)]
pub enum AudioFormat {
    I8,
    I16,
    I32,
    I64,
    U8,
    U16,
    U32,
    U64,
    F32,
    F64,
}

impl AudioFormat {
    /// The size of one sample of this format, in bytes.
    pub open spec fn spec_sample_size(self) -> usize {
        match self {
            AudioFormat::I8 => 1usize,
            AudioFormat::I16 => 2usize,
            AudioFormat::I32 => 4usize,
            AudioFormat::I64 => 8usize,
            AudioFormat::U8 => 1usize,
            AudioFormat::U16 => 2usize,
            AudioFormat::U32 => 4usize,
            AudioFormat::U64 => 8usize,
            AudioFormat::F32 => 4usize,
            AudioFormat::F64 => 8usize,
        }
    }

    /// The size of one sample of this format, in bytes.
    pub fn sample_size(&self) -> (s: usize)
        ensures
            s == self.spec_sample_size(),
            1 <= s <= 8,
    {
        match self {
            AudioFormat::I8 => 1,
            AudioFormat::I16 => 2,
            AudioFormat::I32 => 4,
            AudioFormat::I64 => 8,
            AudioFormat::U8 => 1,
            AudioFormat::U16 => 2,
            AudioFormat::U32 => 4,
            AudioFormat::U64 => 8,
            AudioFormat::F32 => 4,
            AudioFormat::F64 => 8,
        }
    }

    /// Whether samples of this format are floating-point numbers.
    pub fn is_float(&self) -> (r: bool)
        ensures
            r == (self is F32 || self is F64),
    {
        match self {
            AudioFormat::F32 => true,
            AudioFormat::F64 => true,
            _ => false,
        }
    }
}

/// One decoded audio sample run: raw bytes plus the layout needed to read
/// them (format, channel count, planar or interleaved, sample count, rate).
pub struct AudioFrame {
    format: AudioFormat,
    channels: u16,
    is_planar: bool,
    data: Vec<u8>,
    sample_count: usize,
    rate: u32,
    timestamp: u64,
}

impl AudioFrame {
    /// The sample format.
    pub closed spec fn spec_format(self) -> AudioFormat {
        self.format
    }

    /// The number of channels.
    pub closed spec fn spec_channels(self) -> u16 {
        self.channels
    }

    /// Whether channels are stored in separate planes.
    pub closed spec fn spec_is_planar(self) -> bool {
        self.is_planar
    }

    /// The raw payload bytes.
    pub closed spec fn spec_data(self) -> Seq<u8> {
        self.data@
    }

    /// The number of samples per channel.
    pub closed spec fn spec_sample_count(self) -> usize {
        self.sample_count
    }

    /// The sample rate in hertz.
    pub closed spec fn spec_rate(self) -> u32 {
        self.rate
    }

    /// The capture timestamp, in nanoseconds.
    pub closed spec fn spec_time(self) -> u64 {
        self.timestamp
    }

    /// The payload holds at least `sample_count` samples of
    /// `sample_size` bytes for every channel.
    pub open spec fn wf(self) -> bool {
        self.spec_data().len() >= self.spec_sample_count() * self.spec_format().spec_sample_size()
            * self.spec_channels()
    }

    /// Builds an audio frame from its parts. The payload must be large
    /// enough for the advertised layout.
    pub fn new(
        format: AudioFormat,
        channels: u16,
        is_planar: bool,
        data: Vec<u8>,
        sample_count: usize,
        rate: u32,
        timestamp: u64,
    ) -> (frame: AudioFrame)
        requires
            sample_count * format.spec_sample_size() * channels <= data@.len(),
        ensures
            frame.wf(),
            frame.spec_format() == format,
            frame.spec_channels() == channels,
            frame.spec_is_planar() == is_planar,
            frame.spec_data() == data@,
            frame.spec_sample_count() == sample_count,
            frame.spec_rate() == rate,
            frame.spec_time() == timestamp,
    {
        AudioFrame { format, channels, is_planar, data, sample_count, rate, timestamp }
    }

    /// Builds an interleaved audio frame straight from a device buffer,
    /// deriving the per-channel sample count from the buffer length.
    pub fn from_interleaved_bytes(
        format: AudioFormat,
        channels: u16,
        data: Vec<u8>,
        rate: u32,
        timestamp: u64,
    ) -> (frame: AudioFrame)
        requires
            channels > 0,
        ensures
            frame.wf(),
            frame.spec_format() == format,
            frame.spec_channels() == channels,
            !frame.spec_is_planar(),
            frame.spec_data() == data@,
            frame.spec_sample_count() == data@.len() as int / (format.spec_sample_size()
                * channels),
            frame.spec_rate() == rate,
            frame.spec_time() == timestamp,
    {
        let frame_size: usize = format.sample_size() * (channels as usize);
        let sample_count: usize = data.len() / frame_size;
        proof {
            assert(sample_count * frame_size <= data@.len()) by (nonlinear_arith)
                requires
                    frame_size > 0,
                    sample_count == data@.len() as int / (frame_size as int),
            ;
            assert(sample_count * format.spec_sample_size() * (channels as int) == sample_count * (
            frame_size as int)) by (nonlinear_arith)
                requires
                    frame_size == format.spec_sample_size() * channels,
            ;
        }
        AudioFrame { format, channels, is_planar: false, data, sample_count, rate, timestamp }
    }

    /// The sample format.
    pub fn format(&self) -> (r: AudioFormat)
        ensures
            r == self.spec_format(),
    {
        self.format
    }

    /// How many separate planes the payload holds: one per channel when
    /// planar, a single interleaved plane otherwise.
    pub fn planes(&self) -> (r: u16)
        ensures
            r == if self.spec_is_planar() {
                self.spec_channels()
            } else {
                1u16
            },
    {
        if self.is_planar {
            self.channels
        } else {
            1
        }
    }

    /// The number of channels.
    pub fn channels(&self) -> (r: u16)
        ensures
            r == self.spec_channels(),
    {
        self.channels
    }

    /// The sample rate in hertz.
    pub fn rate(&self) -> (r: u32)
        ensures
            r == self.spec_rate(),
    {
        self.rate
    }

    /// Whether channels are stored in separate planes.
    pub fn is_planar(&self) -> (r: bool)
        ensures
            r == self.spec_is_planar(),
    {
        self.is_planar
    }

    /// The raw payload bytes.
    pub fn raw_data(&self) -> (r: &[u8])
        ensures
            r@ == self.spec_data(),
    {
        self.data.as_slice()
    }

    /// The number of samples per channel.
    pub fn sample_count(&self) -> (r: usize)
        ensures
            r == self.spec_sample_count(),
    {
        self.sample_count
    }

    /// The capture timestamp, in nanoseconds.
    pub fn time(&self) -> (r: u64)
        ensures
            r == self.spec_time(),
    {
        self.timestamp
    }

    /// The bytes of one plane: the whole payload when interleaved, the
    /// `plane`-th run of `sample_count * sample_size` bytes when planar.
    pub fn plane_data(&self, plane: usize) -> (r: &[u8])
        requires
            self.wf(),
            self.spec_is_planar() ==> plane < self.spec_channels(),
        ensures
            !self.spec_is_planar() ==> r@ == self.spec_data(),
            self.spec_is_planar() ==> r@ == self.spec_data().subrange(
                plane * (self.spec_sample_count() * self.spec_format().spec_sample_size()),
                plane * (self.spec_sample_count() * self.spec_format().spec_sample_size()) + (
                self.spec_sample_count() * self.spec_format().spec_sample_size()),
            ),
    {
        if !self.is_planar {
            self.data.as_slice()
        } else {
            let total: usize = self.data.len();
            proof {
                let sc = self.spec_sample_count() as int;
                let ss = self.spec_format().spec_sample_size() as int;
                let ch = self.spec_channels() as int;
                let p = plane as int;
                assert(sc * ss <= sc * ss * ch && (p + 1) * (sc * ss) <= ch * (sc * ss) && ch * (sc
                    * ss) == sc * ss * ch && 0 <= p * (sc * ss) && p * (sc * ss) + sc * ss <= ch * (
                sc * ss)) by (nonlinear_arith)
                    requires
                        0 <= p < ch,
                        0 <= sc,
                        0 <= ss,
                ;
                assert(sc * ss * ch <= total);
            }
            let plane_size: usize = self.sample_count * self.format.sample_size();
            let base: usize = plane * plane_size;
            vstd::slice::slice_subrange(self.data.as_slice(), base, base + plane_size)
        }
    }
}

} // verus!
