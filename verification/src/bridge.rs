//! The UI-side consumer: once per UI tick it reads the hand-off store,
//! validates the frame at the boundary, converts it to RGB samples and
//! maintains the displayable texture. The texture state machine is
//! `Absent -> Present(dims)`; `Present(dims) -> Present(dims)` by in-place
//! update; `Present(dims) -> Present(dims')` with `dims' != dims` only by
//! full recreation of the handle. No other transitions.

use vstd::prelude::*;
use crate::frame::FrameModel;
use crate::pixel::{convert_to_rgb, spec_channel_count, spec_to_rgb, FrameError};
use crate::store::{spec_take, FrameStore, StoreModel};

verus! {

/// Mathematical model of the display texture: what a [`DisplayTexture`]
/// denotes.
pub ghost struct TextureModel {
    pub width: nat,
    pub height: nat,
    pub pixels: Seq<u8>,
}

impl TextureModel {
    /// Positive dimensions and exactly three RGB samples per pixel.
    pub open spec fn wf(self) -> bool {
        &&& self.width >= 1
        &&& self.height >= 1
        &&& self.pixels.len() == self.width * self.height * 3
    }
}

/// Mathematical model of the bridge: what a [`TextureBridge`] denotes.
/// `last_seen` is the store version of the frame most recently consumed.
pub ghost struct BridgeModel {
    pub texture: Option<TextureModel>,
    pub last_seen: nat,
}

impl BridgeModel {
    /// Whatever texture is present is well formed.
    pub open spec fn wf(self) -> bool {
        self.texture is Some ==> self.texture->Some_0.wf()
    }
}

/// The displayable texture the UI paints each redraw: RGB samples plus the
/// dimensions they were converted at. Its dimensions always track the last
/// valid frame consumed.
pub struct DisplayTexture {
    width: usize,
    height: usize,
    pixels: Vec<u8>,
}

impl View for DisplayTexture {
    type V = TextureModel;

    closed spec fn view(&self) -> TextureModel {
        TextureModel {
            width: self.width as nat,
            height: self.height as nat,
            pixels: self.pixels@,
        }
    }
}

impl DisplayTexture {
    pub fn width(&self) -> (w: usize)
        ensures
            w == self@.width,
    {
        self.width
    }

    pub fn height(&self) -> (h: usize)
        ensures
            h == self@.height,
    {
        self.height
    }

    pub fn pixels(&self) -> (p: &Vec<u8>)
        ensures
            p@ == self@.pixels,
    {
        &self.pixels
    }
}

/// How one UI tick ended.
#[derive(Clone, Copy, Debug, PartialEq, Eq, Structural)]
pub enum TextureUpdate {
    /// The store had nothing newer: the existing texture, if any, was left
    /// untouched. Also the normal outcome before any frame was published.
    NoNewFrame,
    /// A new frame with the same dimensions as the present texture was
    /// converted and written into it in place.
    UpdatedInPlace,
    /// A new frame arrived with no texture present, or with different
    /// dimensions: the texture was recreated and the old handle released.
    Recreated,
}

/// The texture a well-formed frame converts to: same dimensions, RGB
/// samples copied channel for channel.
pub open spec fn spec_texture_of(f: FrameModel) -> TextureModel {
    TextureModel {
        width: f.width,
        height: f.height,
        pixels: spec_to_rgb(f.format, f.bytes),
    }
}

/// What one UI tick does: the bridge and store states after the tick, and
/// the tick's outcome. Nothing newer in the store leaves both untouched; a
/// taken frame is consumed (its version remembered) whether it turns out
/// corrupt, in which case the texture survives unchanged, or valid, in
/// which case the texture is rewritten in place when dimensions match and
/// recreated when they do not.
pub open spec fn spec_update(b: BridgeModel, s: StoreModel) -> (
    BridgeModel,
    StoreModel,
    Result<TextureUpdate, FrameError>,
) {
    let (s1, taken) = spec_take(s, b.last_seen);
    match taken {
        None => (b, s1, Ok(TextureUpdate::NoNewFrame)),
        Some(f) => {
            if !f.wf() {
                (
                    BridgeModel { texture: b.texture, last_seen: s.version },
                    s1,
                    Err(FrameError::CorruptFrame),
                )
            } else {
                let in_place = match b.texture {
                    Some(t) => t.width == f.width && t.height == f.height,
                    None => false,
                };
                let b1 = BridgeModel { texture: Some(spec_texture_of(f)), last_seen: s.version };
                if in_place {
                    (b1, s1, Ok(TextureUpdate::UpdatedInPlace))
                } else {
                    (b1, s1, Ok(TextureUpdate::Recreated))
                }
            }
        },
    }
}

/// Runs once per UI tick. Never blocks on the render side: with nothing
/// newer it degrades to redisplaying the previous texture.
pub struct TextureBridge {
    texture: Option<DisplayTexture>,
    last_seen: u64,
}

impl View for TextureBridge {
    type V = BridgeModel;

    closed spec fn view(&self) -> BridgeModel {
        BridgeModel {
            texture: match self.texture {
                Some(ref t) => Some(t@),
                None => None,
            },
            last_seen: self.last_seen as nat,
        }
    }
}

impl TextureBridge {
    /// A bridge with no texture yet, which has consumed no version.
    pub fn new() -> (b: TextureBridge)
        ensures
            b@ == (BridgeModel { texture: None::<TextureModel>, last_seen: 0 as nat }),
    {
        TextureBridge { texture: None, last_seen: 0 }
    }

    /// The store version of the frame most recently consumed, zero if none.
    pub fn last_seen(&self) -> (v: u64)
        ensures
            v == self@.last_seen,
    {
        self.last_seen
    }

    /// The current display texture, if one has been created.
    pub fn texture(&self) -> (r: Option<&DisplayTexture>)
        ensures
            match r {
                Some(t) => self@.texture == Some(t@),
                None => self@.texture is None,
            },
    {
        match &self.texture {
            Some(t) => Some(t),
            None => None,
        }
    }

    /// One UI tick, exactly [`spec_update`] of the two states: reads the
    /// store if its version advanced, validates the frame's byte length
    /// against its declared dimensions and format, rejects a corrupt frame
    /// with [`FrameError::CorruptFrame`] while keeping the last-good
    /// texture on display, and otherwise converts by direct channel copy
    /// and updates or recreates the texture.
    pub fn update(&mut self, store: &mut FrameStore) -> (r: Result<TextureUpdate, FrameError>)
        ensures
            final(self)@ == spec_update(old(self)@, old(store)@).0,
            final(store)@ == spec_update(old(self)@, old(store)@).1,
            r == spec_update(old(self)@, old(store)@).2,
    {
        match store.try_take_if_newer(self.last_seen) {
            None => Ok(TextureUpdate::NoNewFrame),
            Some((buffer, version)) => {
                self.last_seen = version;
                if !buffer.is_valid() {
                    Err(FrameError::CorruptFrame)
                } else {
                    proof {
                        assert((buffer@.width * buffer@.height * spec_channel_count(buffer@.format))
                            % spec_channel_count(buffer@.format) == 0) by (nonlinear_arith);
                    }
                    let converted = convert_to_rgb(buffer.format(), buffer.bytes());
                    let width = buffer.width();
                    let height = buffer.height();
                    let in_place = match &self.texture {
                        Some(t) => t.width == width && t.height == height,
                        None => false,
                    };
                    self.texture = Some(DisplayTexture { width, height, pixels: converted });
                    if in_place {
                        Ok(TextureUpdate::UpdatedInPlace)
                    } else {
                        Ok(TextureUpdate::Recreated)
                    }
                }
            },
        }
    }
}

/// Law: the UI tick is idempotent. A second tick with no intervening
/// publication leaves the bridge (texture included) and the store exactly
/// as the first tick left them: no recreation, no churn.
pub proof fn lemma_update_idempotent(b: BridgeModel, s: StoreModel)
    ensures
        ({
            let (b1, s1, r1) = spec_update(b, s);
            let (b2, s2, r2) = spec_update(b1, s1);
            b2 == b1 && s2 == s1
        }),
{
}

/// Law: the bridge never steps backwards. A tick never lowers the version
/// it has consumed, so a frame older than one already consumed is never
/// observed again.
pub proof fn lemma_last_seen_monotonic(b: BridgeModel, s: StoreModel)
    ensures
        spec_update(b, s).0.last_seen >= b.last_seen,
{
}

/// Law: the pipeline delivers. When a render pass has completed and the
/// bridge is not ahead of the store, extracting and then running one UI
/// tick succeeds and leaves exactly the target's frame on display,
/// converted channel for channel, at the version the extraction published.
pub proof fn lemma_extract_then_update_displays(
    t: crate::target::TargetModel,
    s: StoreModel,
    b: BridgeModel,
)
    requires
        t.wf(),
        t.rendered,
        b.last_seen <= s.version,
    ensures
        ({
            let (b1, s1, r) = spec_update(b, crate::extract::spec_extract(t, s));
            &&& r is Ok
            &&& b1.texture == Some(spec_texture_of(t.frame()))
            &&& b1.last_seen == s.version + 1
            &&& s1.slot is None
        }),
{
}

/// Law: every texture the bridge ever displays is well formed — positive
/// dimensions matching the consumed frame and exactly three samples per
/// pixel — and a corrupt frame leaves the displayed texture untouched.
pub proof fn lemma_update_preserves_wf(b: BridgeModel, s: StoreModel)
    requires
        b.wf(),
    ensures
        spec_update(b, s).0.wf(),
        spec_update(b, s).2 is Err ==> spec_update(b, s).0.texture == b.texture,
{
    let (s1, taken) = spec_take(s, b.last_seen);
    match taken {
        None => {},
        Some(f) => {
            if f.wf() {
                crate::pixel::lemma_to_rgb_len(f.format, f.bytes, f.width * f.height);
            }
        },
    }
}

} // verus!
