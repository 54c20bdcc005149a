//! A frame hand-off core for two independently paced loops: a render loop
//! that produces pixel buffers into an offscreen target, and a UI loop that
//! converts the latest complete buffer into a displayable texture.
//!
//! The pieces, leaf first: [`pixel`] holds the pixel format tags, the error
//! taxonomy and the channel-copy conversion; [`frame`] the immutable
//! [`frame::FrameBuffer`] value; [`target`] the resizable
//! [`target::OffscreenTarget`] the render loop draws into; [`store`] the
//! single-slot, last-writer-wins [`store::FrameStore`] with its version
//! counter; [`extract`] the per-render-tick copy from target to store; and
//! [`bridge`] the per-UI-tick [`bridge::TextureBridge`] that validates,
//! converts and maintains the display texture.

pub mod bridge;
pub mod extract;
pub mod frame;
pub mod pixel;
pub mod store;
pub mod target;
