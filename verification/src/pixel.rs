//! Pixel format tags, the error taxonomy, and the pure channel-copy
//! conversion from a source format to tightly packed RGB samples.

use vstd::prelude::*;

verus! {

/// Layout of one pixel's interleaved channel samples in a byte buffer.
#[derive(Clone, Copy, Debug, PartialEq, Eq, Structural)]
pub enum PixelFormat {
    /// Four bytes per pixel: red, green, blue, alpha.
    Rgba8,
    /// Three bytes per pixel: red, green, blue.
    Rgb8,
}

/// The conditions a frame-pipeline operation can fail with. None is fatal:
/// a fault degrades display quality, it never crashes the host.
#[derive(Clone, Copy, Debug, PartialEq, Eq, Structural)]
pub enum FrameError {
    /// A requested target size had a zero width or height; the previous
    /// state is retained unchanged.
    InvalidDimensions,
    /// A buffer's byte length does not match its declared dimensions and
    /// format; the buffer is rejected whole, never partially consumed.
    CorruptFrame,
}

/// Number of interleaved channel samples per pixel for a format.
pub open spec fn spec_channel_count(format: PixelFormat) -> nat {
    match format {
        PixelFormat::Rgba8 => 4,
        PixelFormat::Rgb8 => 3,
    }
}

/// Number of interleaved channel samples per pixel for a format.
pub fn channel_count(format: PixelFormat) -> (n: usize)
    ensures
        n == spec_channel_count(format),
{
    match format {
        PixelFormat::Rgba8 => 4,
        PixelFormat::Rgb8 => 3,
    }
}

/// The RGB samples obtained from `bytes` in the given source format: each
/// output sample is a direct copy of the corresponding input sample, the
/// alpha channel (if any) is dropped. No colour-space or gamma correction
/// is performed; the copy is numerically exact by design.
pub open spec fn spec_to_rgb(format: PixelFormat, bytes: Seq<u8>) -> Seq<u8> {
    match format {
        PixelFormat::Rgba8 => Seq::new(
            (bytes.len() / 4) * 3,
            |i: int| bytes[(i / 3) * 4 + (i % 3)],
        ),
        PixelFormat::Rgb8 => bytes,
    }
}

/// Converts a pixel buffer to tightly packed RGB samples by direct channel
/// copy, dropping the alpha channel of an RGBA source. The input length
/// must be a whole number of pixels.
pub fn convert_to_rgb(format: PixelFormat, bytes: &Vec<u8>) -> (out: Vec<u8>)
    requires
        bytes@.len() % spec_channel_count(format) == 0,
    ensures
        out@ == spec_to_rgb(format, bytes@),
{
    match format {
        PixelFormat::Rgba8 => {
            let n: usize = bytes.len();
            let pixel_count: usize = n / 4;
            let mut out: Vec<u8> = Vec::new();
            let mut p: usize = 0;
            while p < pixel_count
                invariant
                    n == bytes@.len(),
                    pixel_count == bytes@.len() / 4,
                    bytes@.len() % 4 == 0,
                    p <= pixel_count,
                    out@.len() == p * 3,
                    forall|i: int|
                        0 <= i < p * 3 ==> out@[i] == bytes@[(i / 3) * 4 + (i % 3)],
                decreases pixel_count - p,
            {
                proof {
                    assert(4 * p + 3 < bytes@.len()) by (nonlinear_arith)
                        requires
                            p < pixel_count,
                            pixel_count == bytes@.len() / 4,
                            bytes@.len() % 4 == 0,
                    ;
                }
                let base: usize = 4 * p;
                out.push(bytes[base]);
                out.push(bytes[base + 1]);
                out.push(bytes[base + 2]);
                proof {
                    assert((3 * p + 0) / 3 == p && (3 * p + 0) % 3 == 0) by (nonlinear_arith);
                    assert((3 * p + 1) / 3 == p && (3 * p + 1) % 3 == 1) by (nonlinear_arith);
                    assert((3 * p + 2) / 3 == p && (3 * p + 2) % 3 == 2) by (nonlinear_arith);
                }
                p = p + 1;
            }
            proof {
                assert(out@ =~= spec_to_rgb(format, bytes@));
            }
            out
        },
        PixelFormat::Rgb8 => {
            let mut out: Vec<u8> = Vec::new();
            let mut i: usize = 0;
            while i < bytes.len()
                invariant
                    i <= bytes@.len(),
                    out@ =~= bytes@.take(i as int),
                decreases bytes@.len() - i,
            {
                out.push(bytes[i]);
                i = i + 1;
            }
            proof {
                assert(out@ =~= bytes@);
            }
            out
        },
    }
}

/// The converted output of a well-sized buffer is exactly three samples per
/// pixel, whatever the source format.
pub proof fn lemma_to_rgb_len(format: PixelFormat, bytes: Seq<u8>, pixels: nat)
    requires
        bytes.len() == pixels * spec_channel_count(format),
    ensures
        spec_to_rgb(format, bytes).len() == pixels * 3,
{
    match format {
        PixelFormat::Rgba8 => {
            assert((pixels * 4) / 4 == pixels) by (nonlinear_arith);
        },
        PixelFormat::Rgb8 => {},
    }
}

} // verus!
