//! Frame value types and pixel-format normalization.
//!
//! Every captured sample crosses the engine boundary as one of the variants
//! of [`Frame`]: a video frame in the pixel layout the capture session
//! produced, or an audio frame. The conversion functions at the bottom of
//! this module reshape raw 4-byte-per-pixel buffers: stripping an alpha
//! channel, swapping BGRA byte order into RGB, and cropping stride-padded
//! rows down to their visible prefix.

use vstd::prelude::*;

use crate::audio::AudioFrame;

verus! {

/// A biplanar YCbCr video frame: a luma plane and an interleaved chroma
/// plane, each with its own row stride in bytes.
#[derive(Debug, Clone)]
pub struct YUVFrame {
    pub display_time: u64,
    pub width: i32,
    pub height: i32,
    pub luminance_bytes: Vec<u8>,
    pub luminance_stride: i32,
    pub chrominance_bytes: Vec<u8>,
    pub chrominance_stride: i32,
}

/// A tightly packed RGB video frame (3 bytes per pixel).
#[derive(Debug, Clone)]
pub struct RGBFrame {
    pub display_time: u64,
    pub width: i32,
    pub height: i32,
    pub data: Vec<u8>,
}

/// An RGB frame header without a payload.
#[derive(Debug, Clone)]
pub struct RGB8Frame {
    pub display_time: u64,
    pub width: i32,
    pub height: i32,
}

/// An RGBx video frame (4 bytes per pixel, padding byte last).
#[derive(Debug, Clone)]
pub struct RGBxFrame {
    pub display_time: u64,
    pub width: i32,
    pub height: i32,
    pub data: Vec<u8>,
}

/// An xBGR video frame (4 bytes per pixel, padding byte first).
#[derive(Debug, Clone)]
pub struct XBGRFrame {
    pub display_time: u64,
    pub width: i32,
    pub height: i32,
    pub data: Vec<u8>,
}

/// A BGRx video frame (4 bytes per pixel, padding byte last).
#[derive(Debug, Clone)]
pub struct BGRxFrame {
    pub display_time: u64,
    pub width: i32,
    pub height: i32,
    pub data: Vec<u8>,
}

/// A tightly packed BGR video frame (3 bytes per pixel).
#[derive(Debug, Clone)]
pub struct BGRFrame {
    pub display_time: u64,
    pub width: i32,
    pub height: i32,
    pub data: Vec<u8>,
}

/// A BGRA video frame (4 bytes per pixel, alpha last). A zero-sized BGRA
/// frame with an empty payload serves as the idle placeholder that keeps a
/// consumer's pull loop alive while the screen content is unchanged.
#[derive(Debug, Clone)]
pub struct BGRAFrame {
    pub display_time: u64,
    pub width: i32,
    pub height: i32,
    pub data: Vec<u8>,
}

/// The pixel layout a caller asks the engine to deliver.
#[derive(Debug, Clone, Copy, Default)]
pub enum FrameType {
    #[default]
    YUVFrame,
    BGR0,
    RGB,
    BGRAFrame,
}

/// One decoded video sample, tagged by its pixel layout.
#[derive(Debug, Clone)]
pub enum VideoFrame {
    YUVFrame(YUVFrame),
    RGB(RGBFrame),
    RGBx(RGBxFrame),
    XBGR(XBGRFrame),
    BGRx(BGRxFrame),
    BGR0(BGRFrame),
    BGRA(BGRAFrame),
}

/// One sample delivered to the consumer: video or audio.
pub enum Frame {
    Audio(AudioFrame),
    Video(VideoFrame),
}

/// A borrowed view of frame payload bytes, shaped for an encoder's input.
pub enum FrameData<'a> {
    NV12(&'a YUVFrame),
    BGR0(&'a [u8]),
}

impl VideoFrame {
    /// The presentation timestamp of the frame, in nanoseconds.
    pub open spec fn spec_display_time(self) -> u64 {
        match self {
            VideoFrame::YUVFrame(f) => f.display_time,
            VideoFrame::RGB(f) => f.display_time,
            VideoFrame::RGBx(f) => f.display_time,
            VideoFrame::XBGR(f) => f.display_time,
            VideoFrame::BGRx(f) => f.display_time,
            VideoFrame::BGR0(f) => f.display_time,
            VideoFrame::BGRA(f) => f.display_time,
        }
    }

    /// The presentation timestamp of the frame, in nanoseconds.
    pub fn display_time(&self) -> (t: u64)
        ensures
            t == self.spec_display_time(),
    {
        match self {
            VideoFrame::YUVFrame(f) => f.display_time,
            VideoFrame::RGB(f) => f.display_time,
            VideoFrame::RGBx(f) => f.display_time,
            VideoFrame::XBGR(f) => f.display_time,
            VideoFrame::BGRx(f) => f.display_time,
            VideoFrame::BGR0(f) => f.display_time,
            VideoFrame::BGRA(f) => f.display_time,
        }
    }
}

/// The bytes that remain when every pixel of a 4-byte buffer keeps its
/// first three channels in order: `[c0, c1, c2, a] -> [c0, c1, c2]`.
pub open spec fn alpha_stripped(src: Seq<u8>) -> Seq<u8> {
    Seq::new((src.len() / 4 * 3) as nat, |j: int| src[4 * (j / 3) + j % 3])
}

/// The bytes that remain when every 4-byte BGRA pixel is rewritten as an
/// RGB triple with its colour channels reversed: `[b, g, r, a] -> [r, g, b]`.
pub open spec fn bgra_swapped(src: Seq<u8>) -> Seq<u8> {
    Seq::new((src.len() / 4 * 3) as nat, |j: int| src[4 * (j / 3) + (2 - j % 3)])
}

/// Drops the alpha channel of a 4-byte-per-pixel buffer, keeping the three
/// colour channels of each pixel in their original order.
///
/// Order preservation is part of the contract: byte `3*i + c` of the result
/// is byte `4*i + c` of the input, for every pixel `i` and channel `c < 3`.
/// Any bytes after the last whole 4-byte pixel are dropped.
pub fn remove_alpha_channel(frame_data: Vec<u8>) -> (r: Vec<u8>)
    ensures
        r@ == alpha_stripped(frame_data@),
        r@.len() == frame_data@.len() / 4 * 3,
{
    let pixels = frame_data.len() / 4;
    let mut data: Vec<u8> = Vec::new();
    let mut i: usize = 0;
    while i < pixels
        invariant
            pixels == frame_data@.len() / 4,
            frame_data@.len() <= usize::MAX,
            i <= pixels,
            data@.len() == 3 * i,
            forall|j: int|
                0 <= j < data@.len() ==> data@[j] == frame_data@[4 * (j / 3) + j % 3],
        decreases pixels - i,
    {
        proof {
            assert(4 * (i + 1) <= 4 * pixels <= frame_data@.len()) by (nonlinear_arith)
                requires
                    i < pixels,
                    pixels == frame_data@.len() / 4,
            ;
        }
        data.push(frame_data[4 * i]);
        data.push(frame_data[4 * i + 1]);
        data.push(frame_data[4 * i + 2]);
        proof {
            let i0 = i as int;
            assert((3 * i0) / 3 == i0 && (3 * i0) % 3 == 0 && (3 * i0 + 1) / 3 == i0 && (3 * i0
                + 1) % 3 == 1 && (3 * i0 + 2) / 3 == i0 && (3 * i0 + 2) % 3 == 2)
                by (nonlinear_arith);
        }
        i += 1;
    }
    proof {
        assert(data@ =~= alpha_stripped(frame_data@));
    }
    data
}

/// Converts a BGRA buffer to tightly packed RGB: each pixel's blue and red
/// channels trade places and the alpha byte is dropped,
/// `[b, g, r, a] -> [r, g, b]`.
pub fn convert_bgra_to_rgb(frame_data: Vec<u8>) -> (r: Vec<u8>)
    ensures
        r@ == bgra_swapped(frame_data@),
        r@.len() == frame_data@.len() / 4 * 3,
{
    let pixels = frame_data.len() / 4;
    let mut data: Vec<u8> = Vec::new();
    let mut i: usize = 0;
    while i < pixels
        invariant
            pixels == frame_data@.len() / 4,
            frame_data@.len() <= usize::MAX,
            i <= pixels,
            data@.len() == 3 * i,
            forall|j: int|
                0 <= j < data@.len() ==> data@[j] == frame_data@[4 * (j / 3) + (2 - j % 3)],
        decreases pixels - i,
    {
        proof {
            assert(4 * (i + 1) <= 4 * pixels <= frame_data@.len()) by (nonlinear_arith)
                requires
                    i < pixels,
                    pixels == frame_data@.len() / 4,
            ;
        }
        data.push(frame_data[4 * i + 2]);
        data.push(frame_data[4 * i + 1]);
        data.push(frame_data[4 * i]);
        proof {
            let i0 = i as int;
            assert((3 * i0) / 3 == i0 && (3 * i0) % 3 == 0 && (3 * i0 + 1) / 3 == i0 && (3 * i0
                + 1) % 3 == 1 && (3 * i0 + 2) / 3 == i0 && (3 * i0 + 2) % 3 == 2)
                by (nonlinear_arith);
        }
        i += 1;
    }
    proof {
        assert(data@ =~= bgra_swapped(frame_data@));
    }
    data
}

/// The length-`4*width` prefix of every row of a buffer whose rows are
/// `4*cur_width` bytes long, concatenated in row order.
pub open spec fn cropped_rows(data: Seq<u8>, cur_width: int, height: int, width: int) -> Seq<u8> {
    Seq::new(
        (4 * height * width) as nat,
        |j: int| data[(j / (4 * width)) * (4 * cur_width) + j % (4 * width)],
    )
}

/// Crops a 4-byte-per-pixel buffer with rows of `cur_width` pixels down to
/// its first `width` pixels per row, dropping the tail of every row.
///
/// If the buffer's length does not match `height * cur_width * 4` the caller
/// handed a buffer that is already cropped or otherwise mismatched, and the
/// input is returned unchanged.
pub fn get_cropped_data(data: Vec<u8>, cur_width: i32, height: i32, width: i32) -> (r: Vec<u8>)
    requires
        0 <= width <= cur_width,
        0 <= height,
        4 * (cur_width as int) <= i32::MAX,
        4 * (height as int) * (cur_width as int) <= i32::MAX,
        data@.len() <= i32::MAX,
    ensures
        data@.len() != 4 * (height as int) * (cur_width as int) ==> r@ == data@,
        data@.len() == 4 * (height as int) * (cur_width as int) ==> r@ == cropped_rows(
            data@,
            cur_width as int,
            height as int,
            width as int,
        ),
        data@.len() == 4 * (height as int) * (cur_width as int) ==> r@.len() == 4 * (height as int)
            * (width as int),
{
    proof {
        assert(4 * (height as int) * (width as int) <= 4 * (height as int) * (cur_width as int))
            by (nonlinear_arith)
            requires
                0 <= width <= cur_width,
                0 <= height,
        ;
        assert(0 <= 4 * (height as int) * (width as int)) by (nonlinear_arith)
            requires
                0 <= width,
                0 <= height,
        ;
        assert((height as int) * (cur_width as int) * 4 == 4 * (height as int) * (cur_width as int)
            && 0 <= (height as int) * (cur_width as int) && (height as int) * (cur_width as int)
            <= 4 * (height as int) * (cur_width as int)) by (nonlinear_arith)
            requires
                0 <= height,
                0 <= cur_width,
        ;
    }
    if data.len() as i32 != height * cur_width * 4 {
        data
    } else {
        let row_len: i32 = 4 * width;
        let src_row_len: i32 = 4 * cur_width;
        let mut cropped_data: Vec<u8> = Vec::new();
        let mut row: i32 = 0;
        while row < height
            invariant
                0 <= row <= height,
                0 <= width <= cur_width,
                row_len == 4 * width,
                src_row_len == 4 * cur_width,
                4 * (height as int) * (cur_width as int) <= i32::MAX,
                data@.len() == 4 * (height as int) * (cur_width as int),
                cropped_data@.len() == row * row_len,
                forall|j: int|
                    0 <= j < cropped_data@.len() ==> cropped_data@[j] == data@[(j / (4 * width))
                        * (4 * cur_width) + j % (4 * width)],
            decreases height - row,
        {
            let mut col: i32 = 0;
            while col < row_len
                invariant
                    0 <= col <= row_len,
                    0 <= row < height,
                    0 <= width <= cur_width,
                    row_len == 4 * width,
                    src_row_len == 4 * cur_width,
                    4 * (height as int) * (cur_width as int) <= i32::MAX,
                    data@.len() == 4 * (height as int) * (cur_width as int),
                    cropped_data@.len() == row * row_len + col,
                    forall|j: int|
                        0 <= j < cropped_data@.len() ==> cropped_data@[j] == data@[(j / (4 * width))
                            * (4 * cur_width) + j % (4 * width)],
                decreases row_len - col,
            {
                proof {
                    assert((row as int) * (src_row_len as int) + col < 4 * (height as int) * (
                    cur_width as int)) by (nonlinear_arith)
                        requires
                            0 <= row < height,
                            0 <= col < row_len,
                            row_len == 4 * width,
                            src_row_len == 4 * cur_width,
                            0 <= width <= cur_width,
                    ;
                    assert(0 <= (row as int) * (src_row_len as int)) by (nonlinear_arith)
                        requires
                            0 <= row,
                            0 <= src_row_len,
                    ;
                }
                let src_index: i32 = row * src_row_len + col;
                let byte = data[src_index as usize];
                cropped_data.push(byte);
                proof {
                    let j = (row as int) * (row_len as int) + col;
                    vstd::arithmetic::div_mod::lemma_fundamental_div_mod_converse(
                        j,
                        row_len as int,
                        row as int,
                        col as int,
                    );
                    assert(j / (4 * (width as int)) == row as int);
                    assert(j % (4 * (width as int)) == col as int);
                }
                col += 1;
            }
            proof {
                assert((row + 1) * (row_len as int) == row * (row_len as int) + row_len)
                    by (nonlinear_arith);
            }
            row += 1;
        }
        proof {
            assert((height as int) * (row_len as int) == 4 * (height as int) * (width as int))
                by (nonlinear_arith)
                requires
                    row_len == 4 * width,
            ;
            assert(cropped_data@ =~= cropped_rows(
                data@,
                cur_width as int,
                height as int,
                width as int,
            ));
        }
        cropped_data
    }
}

} // verus!
