//! The immutable frame value that crosses from the render loop to the UI
//! loop: dimensions, a pixel format tag, and the interleaved channel bytes.

use vstd::prelude::*;
use crate::pixel::{channel_count, spec_channel_count, PixelFormat};

verus! {

/// Mathematical model of a frame: what a [`FrameBuffer`] denotes.
pub ghost struct FrameModel {
    pub width: nat,
    pub height: nat,
    pub format: PixelFormat,
    pub bytes: Seq<u8>,
}

impl FrameModel {
    /// A frame is well formed when both dimensions are at least one and the
    /// byte buffer holds exactly one sample per channel per pixel. A frame
    /// that fails this is corrupt and is rejected whole at every boundary,
    /// never partially consumed.
    pub open spec fn wf(self) -> bool {
        &&& self.width >= 1
        &&& self.height >= 1
        &&& self.bytes.len() == self.width * self.height * spec_channel_count(self.format)
    }
}

/// One rendered frame, written once by the render side and never mutated
/// afterwards: every hand-off copies or moves it, no one edits it in place.
pub struct FrameBuffer {
    width: usize,
    height: usize,
    format: PixelFormat,
    bytes: Vec<u8>,
}

impl View for FrameBuffer {
    type V = FrameModel;

    closed spec fn view(&self) -> FrameModel {
        FrameModel {
            width: self.width as nat,
            height: self.height as nat,
            format: self.format,
            bytes: self.bytes@,
        }
    }
}

impl FrameBuffer {
    /// Assembles a frame from its parts. Nothing is checked here: a frame
    /// is validated where it crosses a boundary, so an ill-sized buffer can
    /// exist and must be rejected by the consumer.
    pub fn from_parts(width: usize, height: usize, format: PixelFormat, bytes: Vec<u8>) -> (f:
        FrameBuffer)
        ensures
            f@ == (FrameModel {
                width: width as nat,
                height: height as nat,
                format,
                bytes: bytes@,
            }),
    {
        FrameBuffer { width, height, format, bytes }
    }

    pub fn width(&self) -> (w: usize)
        ensures
            w == self@.width,
    {
        self.width
    }

    pub fn height(&self) -> (h: usize)
        ensures
            h == self@.height,
    {
        self.height
    }

    pub fn format(&self) -> (f: PixelFormat)
        ensures
            f == self@.format,
    {
        self.format
    }

    pub fn bytes(&self) -> (b: &Vec<u8>)
        ensures
            b@ == self@.bytes,
    {
        &self.bytes
    }

    /// Decides the well-formedness check of [`FrameModel::wf`] on this
    /// frame: dimensions at least one, byte length exactly
    /// `width * height * channels`.
    pub fn is_valid(&self) -> (ok: bool)
        ensures
            ok == self@.wf(),
    {
        if self.width == 0 || self.height == 0 {
            return false;
        }
        let ch: usize = channel_count(self.format);
        let len: usize = self.bytes.len();
        match self.width.checked_mul(self.height) {
            None => {
                proof {
                    lemma_big_product(
                        self.width as nat,
                        self.height as nat,
                        spec_channel_count(self.format),
                        len as nat,
                    );
                }
                false
            },
            Some(pixels) => match pixels.checked_mul(ch) {
                None => false,
                Some(total) => total == len,
            },
        }
    }
}

/// A product of positive dimensions that already exceeds the address space
/// cannot, once multiplied by the (positive) channel count, equal the length
/// of a buffer that fits in it.
proof fn lemma_big_product(w: nat, h: nat, ch: nat, len: nat)
    requires
        w * h > usize::MAX,
        ch >= 1,
        len <= usize::MAX,
    ensures
        len != w * h * ch,
{
    assert(w * h * ch >= w * h) by (nonlinear_arith)
        requires
            ch >= 1,
    ;
}

} // verus!
