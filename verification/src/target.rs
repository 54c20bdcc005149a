//! The resizable offscreen render destination owned by the render loop.
//! Each completed render pass fills it; a snapshot copies its contents out
//! by value so the next pass can never mutate data already handed off.

use vstd::prelude::*;
use crate::frame::{FrameBuffer, FrameModel};
use crate::pixel::{channel_count, spec_channel_count, FrameError, PixelFormat};

verus! {

/// Mathematical model of the target: what an [`OffscreenTarget`] denotes.
/// `rendered` records whether any render pass has completed since the
/// backing allocation was last replaced.
pub ghost struct TargetModel {
    pub width: nat,
    pub height: nat,
    pub format: PixelFormat,
    pub bytes: Seq<u8>,
    pub rendered: bool,
}

impl TargetModel {
    /// The target's invariant: positive dimensions and a backing buffer of
    /// exactly one sample per channel per pixel. Constructors establish it
    /// and every operation preserves it; a degenerate zero-sized target can
    /// never exist.
    pub open spec fn wf(self) -> bool {
        &&& self.width >= 1
        &&& self.height >= 1
        &&& self.bytes.len() == self.width * self.height * spec_channel_count(self.format)
    }

    /// The frame a snapshot of this target denotes.
    pub open spec fn frame(self) -> FrameModel {
        FrameModel { width: self.width, height: self.height, format: self.format, bytes: self.bytes }
    }
}

/// A named render destination: the render loop draws into it, the
/// extractor copies it out. Not presented to any display itself.
pub struct OffscreenTarget {
    width: usize,
    height: usize,
    format: PixelFormat,
    bytes: Vec<u8>,
    rendered: bool,
}

impl View for OffscreenTarget {
    type V = TargetModel;

    closed spec fn view(&self) -> TargetModel {
        TargetModel {
            width: self.width as nat,
            height: self.height as nat,
            format: self.format,
            bytes: self.bytes@,
            rendered: self.rendered,
        }
    }
}

impl OffscreenTarget {
    /// A fresh target with a zero-filled backing buffer. Fails with
    /// [`FrameError::InvalidDimensions`] exactly when a dimension is zero;
    /// no zero-sized target is ever created.
    pub fn new(width: usize, height: usize, format: PixelFormat) -> (r: Result<
        OffscreenTarget,
        FrameError,
    >)
        requires
            width * height * spec_channel_count(format) <= usize::MAX,
        ensures
            match r {
                Ok(t) => {
                    &&& width >= 1 && height >= 1
                    &&& t@ == (TargetModel {
                        width: width as nat,
                        height: height as nat,
                        format,
                        bytes: Seq::new((width * height * spec_channel_count(format)) as nat, |i: int| 0u8),
                        rendered: false,
                    })
                    &&& t@.wf()
                },
                Err(e) => (width == 0 || height == 0) && e == FrameError::InvalidDimensions,
            },
    {
        if width == 0 || height == 0 {
            return Err(FrameError::InvalidDimensions);
        }
        let len: usize = width * height * channel_count(format);
        let bytes = zero_bytes(len);
        Ok(OffscreenTarget { width, height, format, bytes, rendered: false })
    }

    pub fn width(&self) -> (w: usize)
        ensures
            w == self@.width,
    {
        self.width
    }

    pub fn height(&self) -> (h: usize)
        ensures
            h == self@.height,
    {
        self.height
    }

    pub fn format(&self) -> (f: PixelFormat)
        ensures
            f == self@.format,
    {
        self.format
    }

    /// Replaces the backing allocation with a zero-filled one of the new
    /// size and forgets any completed pass. Fails with
    /// [`FrameError::InvalidDimensions`] exactly when a dimension is zero,
    /// and then retains the previous buffer unchanged: the target is never
    /// replaced by a degenerate one.
    pub fn resize(&mut self, width: usize, height: usize) -> (r: Result<(), FrameError>)
        requires
            width * height * spec_channel_count(old(self)@.format) <= usize::MAX,
        ensures
            match r {
                Ok(()) => {
                    &&& width >= 1 && height >= 1
                    &&& final(self)@ == (TargetModel {
                        width: width as nat,
                        height: height as nat,
                        format: old(self)@.format,
                        bytes: Seq::new(
                            (width * height * spec_channel_count(old(self)@.format)) as nat,
                            |i: int| 0u8,
                        ),
                        rendered: false,
                    })
                },
                Err(e) => {
                    &&& (width == 0 || height == 0)
                    &&& e == FrameError::InvalidDimensions
                    &&& final(self)@ == old(self)@
                },
            },
    {
        if width == 0 || height == 0 {
            return Err(FrameError::InvalidDimensions);
        }
        let len: usize = width * height * channel_count(self.format);
        self.bytes = zero_bytes(len);
        self.width = width;
        self.height = height;
        self.rendered = false;
        Ok(())
    }

    /// Accepts the pixel bytes of a completed render pass. The length is
    /// checked at this boundary crossing: a buffer that does not hold
    /// exactly one sample per channel per pixel fails with
    /// [`FrameError::CorruptFrame`] and the target keeps its previous
    /// contents untouched.
    pub fn complete_pass(&mut self, pixels: Vec<u8>) -> (r: Result<(), FrameError>)
        requires
            old(self)@.wf(),
        ensures
            match r {
                Ok(()) => {
                    &&& pixels@.len() == old(self)@.width * old(self)@.height
                        * spec_channel_count(old(self)@.format)
                    &&& final(self)@ == (TargetModel {
                        bytes: pixels@,
                        rendered: true,
                        ..old(self)@
                    })
                },
                Err(e) => {
                    &&& pixels@.len() != old(self)@.width * old(self)@.height
                        * spec_channel_count(old(self)@.format)
                    &&& e == FrameError::CorruptFrame
                    &&& final(self)@ == old(self)@
                },
            },
    {
        if pixels.len() != self.bytes.len() {
            return Err(FrameError::CorruptFrame);
        }
        self.bytes = pixels;
        self.rendered = true;
        Ok(())
    }

    /// A by-value copy of the target's contents as a frame, decoupled from
    /// the live buffer the next pass will overwrite. Yields nothing before
    /// the first completed pass: "no frame yet" is a normal empty state,
    /// not an error.
    pub fn snapshot(&self) -> (r: Option<FrameBuffer>)
        requires
            self@.wf(),
        ensures
            match r {
                Some(f) => self@.rendered && f@ == self@.frame() && f@.wf(),
                None => !self@.rendered,
            },
    {
        if !self.rendered {
            return None;
        }
        let copy = copy_bytes(&self.bytes);
        Some(FrameBuffer::from_parts(self.width, self.height, self.format, copy))
    }
}

/// A vector of `len` zero bytes.
fn zero_bytes(len: usize) -> (r: Vec<u8>)
    ensures
        r@ == Seq::new(len as nat, |i: int| 0u8),
{
    let mut r: Vec<u8> = Vec::new();
    let mut i: usize = 0;
    while i < len
        invariant
            i <= len,
            r@.len() == i,
            forall|k: int| 0 <= k < i ==> r@[k] == 0u8,
        decreases len - i,
    {
        r.push(0u8);
        i = i + 1;
    }
    proof {
        assert(r@ =~= Seq::new(len as nat, |i: int| 0u8));
    }
    r
}

/// A fresh vector holding the same bytes as `v`.
fn copy_bytes(v: &Vec<u8>) -> (r: Vec<u8>)
    ensures
        r@ == v@,
{
    let mut r: Vec<u8> = Vec::new();
    let mut i: usize = 0;
    while i < v.len()
        invariant
            i <= v@.len(),
            r@ =~= v@.take(i as int),
        decreases v@.len() - i,
    {
        r.push(v[i]);
        i = i + 1;
    }
    proof {
        assert(r@ =~= v@);
    }
    r
}

} // verus!
