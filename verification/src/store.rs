//! The single-slot, last-writer-wins hand-off point between the render loop
//! and the UI loop: at most one pending frame, plus a version counter that
//! advances by exactly one on every publication.

use vstd::prelude::*;
use crate::frame::{FrameBuffer, FrameModel};

verus! {

/// Mathematical model of the hand-off point: what a [`FrameStore`] denotes.
pub ghost struct StoreModel {
    pub slot: Option<FrameModel>,
    pub version: nat,
}

/// What publication does to the store: the slot is overwritten whether or
/// not the previous frame was consumed (most-recent-wins, no queueing), and
/// the version advances by exactly one.
pub open spec fn spec_publish(s: StoreModel, f: FrameModel) -> StoreModel {
    StoreModel { slot: Some(f), version: s.version + 1 }
}

/// What a read attempt does to the store, and what it yields: nothing
/// unless the version has advanced past `last_seen` and a frame is pending;
/// otherwise the pending frame moves out, so a given version is delivered
/// at most once.
pub open spec fn spec_take(s: StoreModel, last_seen: nat) -> (StoreModel, Option<FrameModel>) {
    if last_seen < s.version && s.slot is Some {
        (StoreModel { slot: None, version: s.version }, Some(s.slot->Some_0))
    } else {
        (s, None)
    }
}

/// Single-slot relay between the two loops. The writer never waits for the
/// reader (it overwrites), and the reader never waits for the writer (it
/// comes back empty-handed); a reader sees a whole frame or none.
pub struct FrameStore {
    slot: Option<FrameBuffer>,
    version: u64,
}

impl View for FrameStore {
    type V = StoreModel;

    closed spec fn view(&self) -> StoreModel {
        StoreModel {
            slot: match self.slot {
                Some(ref f) => Some(f@),
                None => None,
            },
            version: self.version as nat,
        }
    }
}

impl FrameStore {
    /// An empty store: no pending frame, version zero.
    pub fn new() -> (s: FrameStore)
        ensures
            s@ == (StoreModel { slot: None::<FrameModel>, version: 0 as nat }),
    {
        FrameStore { slot: None, version: 0 }
    }

    /// The version of the most recent publication, zero if none happened.
    pub fn version(&self) -> (v: u64)
        ensures
            v == self@.version,
    {
        self.version
    }

    /// Whether a published frame is pending, not yet taken by the reader.
    pub fn has_pending(&self) -> (p: bool)
        ensures
            p == (self@.slot is Some),
    {
        self.slot.is_some()
    }

    /// Publishes a frame: always succeeds, overwrites any unconsumed
    /// previous frame, and advances the version by exactly one. An unread
    /// frame lost to a newer one is acceptable by design: only the latest
    /// frame matters for display.
    pub fn publish(&mut self, buffer: FrameBuffer)
        requires
            old(self)@.version < u64::MAX,
        ensures
            final(self)@ == spec_publish(old(self)@, buffer@),
    {
        self.slot = Some(buffer);
        self.version = self.version + 1;
    }

    /// The only read path. Yields nothing if the version has not advanced
    /// past `last_seen_version` or no frame is pending; otherwise moves the
    /// pending frame out together with the current version, so that each
    /// published version is delivered at most once.
    pub fn try_take_if_newer(&mut self, last_seen_version: u64) -> (r: Option<(FrameBuffer, u64)>)
        ensures
            final(self)@ == spec_take(old(self)@, last_seen_version as nat).0,
            match r {
                Some(taken) => {
                    &&& spec_take(old(self)@, last_seen_version as nat).1 == Some(taken.0@)
                    &&& taken.1 == old(self)@.version
                },
                None => spec_take(old(self)@, last_seen_version as nat).1 is None,
            },
    {
        if last_seen_version < self.version && self.slot.is_some() {
            let taken = self.slot.take();
            match taken {
                Some(buffer) => Some((buffer, self.version)),
                None => None,
            }
        } else {
            None
        }
    }
}

/// Law: a frame round-trips through the store unchanged. Publishing `f` and
/// then reading with any version seen before the publication yields exactly
/// `f`, byte for byte, at a version advanced by exactly one, and leaves the
/// slot empty at that same version.
pub proof fn lemma_publish_take_round_trip(s: StoreModel, f: FrameModel, last_seen: nat)
    requires
        last_seen <= s.version,
    ensures
        ({
            let published = spec_publish(s, f);
            let (after, taken) = spec_take(published, last_seen);
            &&& published.version == s.version + 1
            &&& taken == Some(f)
            &&& after == (StoreModel { slot: None::<FrameModel>, version: s.version + 1 })
        }),
{
}

/// Law: each version is delivered at most once, and a reader that is up to
/// date gets nothing. A take with `last_seen` at or past the current
/// version yields nothing and changes nothing; after a successful take, a
/// second take yields nothing whatever version it claims to have seen.
pub proof fn lemma_take_at_most_once(s: StoreModel, last_seen: nat, later_seen: nat)
    ensures
        last_seen >= s.version ==> spec_take(s, last_seen) == (s, None::<FrameModel>),
        spec_take(s, last_seen).1 is Some ==> spec_take(
            spec_take(s, last_seen).0,
            later_seen,
        ).1 is None,
{
}

} // verus!
