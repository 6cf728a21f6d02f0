//! Configuration handed to a video encoder, and the plane copy that feeds
//! one.
//!
//! Encoding itself is an external collaborator; the library only prepares
//! what it consumes: the encoder configuration values, and frame payloads
//! re-laid from the capture stride to the encoder's line size.

use vstd::prelude::*;

verus! {

/// Settings for one video encoder instance.
#[derive(Debug, Clone)]
pub struct EncoderConfig {
    /// The encoder's name.
    pub encoder: String,
    /// The pixel format of the frames handed to it.
    pub pixel_format: String,
    /// The media type of the encoded stream.
    pub encoding: String,
    /// Encoder options as name/value pairs.
    pub options: Vec<(String, String)>,
    /// Whether the next frame is forced to be a key frame.
    pub force_idr: bool,
}

/// The dimensions of the frames handed to an encoder.
#[derive(Debug, Clone)]
pub struct InputConfig {
    pub height: usize,
    pub width: usize,
}

/// The configuration for a low-latency H.264 software encoder.
pub fn libx264() -> (c: EncoderConfig)
    ensures
        c.encoder@ == "libx264"@,
        c.pixel_format@ == "nv12"@,
        c.encoding@ == "video/H264"@,
        c.options@.len() == 3,
        c.options@[0].0@ == "profile"@ && c.options@[0].1@ == "baseline"@,
        c.options@[1].0@ == "preset"@ && c.options@[1].1@ == "ultrafast"@,
        c.options@[2].0@ == "tune"@ && c.options@[2].1@ == "zerolatency"@,
        !c.force_idr,
{
    let mut options: Vec<(String, String)> = Vec::new();
    options.push(("profile".to_string(), "baseline".to_string()));
    options.push(("preset".to_string(), "ultrafast".to_string()));
    options.push(("tune".to_string(), "zerolatency".to_string()));
    EncoderConfig {
        encoder: "libx264".to_string(),
        pixel_format: "nv12".to_string(),
        encoding: "video/H264".to_string(),
        options,
        force_idr: false,
    }
}

/// Re-lays a biplanar plane from the capture stride to an encoder's line
/// size: the first `num_bytes` bytes of every source row land at the start
/// of the corresponding destination row; the rest of each destination row
/// is untouched. When the strides already agree, the plane is copied whole.
pub fn copy_nv12(
    source: &[u8],
    stride: usize,
    encoder_line_size: usize,
    num_bytes: usize,
    destination: &mut Vec<u8>,
)
    requires
        stride > 0,
        source@.len() as int % stride as int == 0,
        num_bytes <= stride,
        stride == encoder_line_size ==> old(destination)@.len() == source@.len(),
        stride != encoder_line_size ==> (source@.len() as int / stride as int) * encoder_line_size
            <= old(destination)@.len(),
        stride != encoder_line_size ==> num_bytes <= encoder_line_size,
        stride != encoder_line_size ==> encoder_line_size > 0,
    ensures
        final(destination)@.len() == old(destination)@.len(),
        stride == encoder_line_size ==> final(destination)@ == source@,
        stride != encoder_line_size ==> forall|j: int|
            0 <= j < final(destination)@.len() ==> final(destination)@[j] == (if j % (
            encoder_line_size as int) < num_bytes && j / (encoder_line_size as int) < source@.len() as int
                / (stride as int) {
                source@[(j / (encoder_line_size as int)) * (stride as int) + j % (
                encoder_line_size as int)]
            } else {
                old(destination)@[j]
            }),
{
    if stride == encoder_line_size {
        let n = source.len();
        let mut i: usize = 0;
        while i < n
            invariant
                n == source@.len(),
                destination@.len() == n,
                i <= n,
                forall|j: int| 0 <= j < i ==> destination@[j] == source@[j],
            decreases n - i,
        {
            let b = source[i];
            destination[i] = b;
            i += 1;
        }
        proof {
            assert(destination@ =~= source@);
        }
        return ;
    }

    let src_len: usize = source.len();
    let dst_len: usize = destination.len();
    let rows: usize = src_len / stride;
    let ghost dest0 = destination@;
    let mut r: usize = 0;
    while r < rows
        invariant
            stride > 0,
            src_len == source@.len(),
            dst_len == destination@.len(),
            rows == source@.len() as int / stride as int,
            source@.len() as int % stride as int == 0,
            num_bytes <= stride,
            num_bytes <= encoder_line_size,
            0 < encoder_line_size,
            rows * encoder_line_size <= destination@.len(),
            destination@.len() == dest0.len(),
            r <= rows,
            forall|j: int|
                0 <= j < destination@.len() ==> destination@[j] == (if j % (
                encoder_line_size as int) < num_bytes && j / (encoder_line_size as int) < r {
                    source@[(j / (encoder_line_size as int)) * (stride as int) + j % (
                    encoder_line_size as int)]
                } else {
                    dest0[j]
                }),
        decreases rows - r,
    {
        let mut b: usize = 0;
        while b < num_bytes
            invariant
                stride > 0,
                src_len == source@.len(),
                dst_len == destination@.len(),
                rows == source@.len() as int / stride as int,
                source@.len() as int % stride as int == 0,
                num_bytes <= stride,
                num_bytes <= encoder_line_size,
                0 < encoder_line_size,
                rows * encoder_line_size <= destination@.len(),
                destination@.len() == dest0.len(),
                r < rows,
                b <= num_bytes,
                forall|j: int|
                    0 <= j < destination@.len() ==> destination@[j] == (if j % (
                    encoder_line_size as int) < num_bytes && j / (encoder_line_size as int) < r || (
                    j / (encoder_line_size as int) == r && j % (encoder_line_size as int) < b) {
                        source@[(j / (encoder_line_size as int)) * (stride as int) + j % (
                        encoder_line_size as int)]
                    } else {
                        dest0[j]
                    }),
            decreases num_bytes - b,
    {
            proof {
                assert(r * stride + b < source@.len() && 0 <= r * stride) by (nonlinear_arith)
                    requires
                        r < rows,
                        b < num_bytes,
                        num_bytes <= stride,
                        rows == source@.len() as int / stride as int,
                        source@.len() as int % stride as int == 0,
                        stride > 0,
                ;
                assert(r * encoder_line_size + b < rows * encoder_line_size && 0 <= r
                    * encoder_line_size) by (nonlinear_arith)
                    requires
                        r < rows,
                        b < num_bytes,
                        num_bytes <= encoder_line_size,
                ;
            }
            let value = source[r * stride + b];
            let d: usize = r * encoder_line_size + b;
            let ghost before = destination@;
            destination[d] = value;
            proof {
                let ei = encoder_line_size as int;
                vstd::arithmetic::div_mod::lemma_fundamental_div_mod_converse(
                    d as int,
                    ei,
                    r as int,
                    b as int,
                );
                assert forall|j: int| 0 <= j < destination@.len() implies destination@[j] == (if (j
                    % ei < num_bytes && j / ei < r) || (j / ei == r && j % ei < b + 1) {
                    source@[(j / ei) * (stride as int) + j % ei]
                } else {
                    dest0[j]
                }) by {
                    vstd::arithmetic::div_mod::lemma_fundamental_div_mod(j, ei);
                    if j == d {
                        assert(j / ei == r && j % ei == b);
                        assert(destination@[j] == value);
                        assert(source@[(j / ei) * (stride as int) + j % ei] == source@[(
                        r as int) * (stride as int) + b]);
                    } else {
                        assert(destination@[j] == before[j]);
                        assert(before[j] == (if (j % ei < num_bytes && j / ei < r) || (j / ei == r
                            && j % ei < b) {
                            source@[(j / ei) * (stride as int) + j % ei]
                        } else {
                            dest0[j]
                        }));
                        if j / ei == r && j % ei == b {
                            assert(j == ei * (j / ei) + j % ei);
                            assert(j == (r as int) * ei + b) by (nonlinear_arith)
                                requires
                                    j == ei * (j / ei) + j % ei,
                                    j / ei == r,
                                    j % ei == b,
                            ;
                            assert(d == r * encoder_line_size + b);
                            assert(false);
                        }
                    }
                }
            }
            b += 1;
        }
        proof {
            assert forall|j: int| 0 <= j < destination@.len() implies destination@[j] == (if j % (
            encoder_line_size as int) < num_bytes && j / (encoder_line_size as int) < r + 1 {
                source@[(j / (encoder_line_size as int)) * (stride as int) + j % (
                encoder_line_size as int)]
            } else {
                dest0[j]
            }) by {
                assert(destination@[j] == (if j % (encoder_line_size as int) < num_bytes && j / (
                encoder_line_size as int) < r || (j / (encoder_line_size as int) == r && j % (
                encoder_line_size as int) < num_bytes) {
                    source@[(j / (encoder_line_size as int)) * (stride as int) + j % (
                    encoder_line_size as int)]
                } else {
                    dest0[j]
                }));
            }
        }
        r += 1;
    }
}

} // verus!
