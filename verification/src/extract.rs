//! The per-render-tick hand-off: copies the offscreen target's contents by
//! value and publishes the copy, so the next render pass can never touch
//! data the UI side has already claimed. The host schedules this strictly
//! after the tick's render pass has fully completed.

use vstd::prelude::*;
use crate::store::{spec_publish, FrameStore, StoreModel};
use crate::target::{OffscreenTarget, TargetModel};

verus! {

/// What one extraction does to the store: publishes a snapshot of the
/// target if a render pass has completed since the backing allocation was
/// last replaced, and otherwise leaves the store untouched (no frame yet:
/// the UI side must tolerate an empty store).
pub open spec fn spec_extract(t: TargetModel, s: StoreModel) -> StoreModel {
    if t.rendered {
        spec_publish(s, t.frame())
    } else {
        s
    }
}

/// Runs once per render tick, after that tick's render pass has fully
/// completed: snapshots the target by value and publishes the snapshot,
/// advancing the store's version by one. A no-op before the first
/// completed pass.
pub fn extract_frame(target: &OffscreenTarget, store: &mut FrameStore)
    requires
        target@.wf(),
        old(store)@.version < u64::MAX,
    ensures
        final(store)@ == spec_extract(target@, old(store)@),
{
    match target.snapshot() {
        Some(frame) => store.publish(frame),
        None => (),
    }
}

} // verus!
