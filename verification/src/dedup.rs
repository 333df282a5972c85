//! Delivery deduplication for inter-partition channels. The network offers
//! no ordering or exactly-once guarantee, so a receiver records every
//! message index it has applied and answers a replayed index with
//! [`AckKind::Duplicate`] without reapplying its effect.

use std::collections::HashSet;

use vstd::prelude::*;

use crate::identity::MessageIndex;

verus! {

broadcast use vstd::std_specs::hash::group_hash_axioms;

/// How a receiver acknowledged a message: applied now, or recognized as a
/// replay of an index already applied.
#[derive(Debug, Clone, Copy)]
pub enum AckKind {
    Acknowledge(MessageIndex),
    Duplicate(MessageIndex),
}

/// The record after observing a message with `index`, and the
/// acknowledgment returned for it: a fresh index is recorded and
/// acknowledged, an index already recorded is reported as a duplicate and
/// the record is unchanged.
pub open spec fn spec_observe(applied: Set<MessageIndex>, index: MessageIndex) -> (
    Set<MessageIndex>,
    AckKind,
) {
    if applied.contains(index) {
        (applied, AckKind::Duplicate(index))
    } else {
        (applied.insert(index), AckKind::Acknowledge(index))
    }
}

/// A message delivered twice with the same index has its effect applied
/// exactly once: the first delivery of a fresh index is acknowledged and
/// recorded; the second returns `Duplicate` and leaves the record exactly
/// as after the first.
pub proof fn lemma_duplicate_delivery(applied: Set<MessageIndex>, index: MessageIndex)
    ensures
        !applied.contains(index) ==> spec_observe(applied, index).1 is Acknowledge,
        spec_observe(spec_observe(applied, index).0, index).0 == spec_observe(applied, index).0,
        spec_observe(spec_observe(applied, index).0, index).1 is Duplicate,
{
    assert(spec_observe(applied, index).0.contains(index));
}

/// The per-channel record of applied message indexes.
#[derive(Debug)]
pub struct DedupState {
    applied: HashSet<MessageIndex>,
}

impl View for DedupState {
    type V = Set<MessageIndex>;

    closed spec fn view(&self) -> Set<MessageIndex> {
        self.applied@
    }
}

impl DedupState {
    pub fn new() -> (r: Self)
        ensures
            r@ == Set::<MessageIndex>::empty(),
    {
        DedupState { applied: HashSet::new() }
    }

    /// Record the delivery of the message with `index` and answer how it
    /// was acknowledged. The caller applies the message's effect only when
    /// the answer is `Acknowledge`.
    pub fn observe(&mut self, index: MessageIndex) -> (ack: AckKind)
        ensures
            (final(self)@, ack) == spec_observe(old(self)@, index),
    {
        if self.applied.contains(&index) {
            AckKind::Duplicate(index)
        } else {
            self.applied.insert(index);
            AckKind::Acknowledge(index)
        }
    }

    /// Whether the message with `index` was already applied.
    pub fn is_applied(&self, index: MessageIndex) -> (r: bool)
        ensures
            r == self@.contains(index),
    {
        self.applied.contains(&index)
    }
}

} // verus!
