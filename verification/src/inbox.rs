//! Inbox: a per-service-instance, strictly ordered queue of invocations
//! waiting for the current one to finish. Entries carry strictly increasing
//! sequence numbers and leave the queue in that order.

use vstd::prelude::*;

use crate::identity::MessageIndex;
use crate::invocation::ServiceInvocation;

verus! {

/// Entry of the inbox: a queued invocation and its sequence number.
#[derive(Debug, Clone, PartialEq)]
pub struct InboxEntry {
    pub inbox_sequence_number: MessageIndex,
    pub service_invocation: ServiceInvocation,
}

impl InboxEntry {
    pub fn new(inbox_sequence_number: MessageIndex, service_invocation: ServiceInvocation) -> (r:
        Self)
        ensures
            r == (InboxEntry { inbox_sequence_number, service_invocation }),
    {
        Self { inbox_sequence_number, service_invocation }
    }
}

/// Mathematical model of an [`Inbox`]: the queued entries in order, and the
/// sequence number the next enqueued invocation will receive.
pub struct InboxView {
    pub entries: Seq<InboxEntry>,
    pub next_sequence_number: MessageIndex,
}

impl InboxView {
    /// Well-formed inbox: sequence numbers are strictly increasing along
    /// the queue and all below the next one to be assigned.
    pub open spec fn wf(self) -> bool {
        &&& forall|i: int, j: int|
            0 <= i < j < self.entries.len() ==> #[trigger] self.entries[i].inbox_sequence_number
                < #[trigger] self.entries[j].inbox_sequence_number
        &&& forall|i: int|
            0 <= i < self.entries.len() ==> #[trigger] self.entries[i].inbox_sequence_number
                < self.next_sequence_number
    }

    pub open spec fn len(self) -> nat {
        self.entries.len()
    }

    /// The inbox after enqueueing `service_invocation` under the next
    /// sequence number.
    pub open spec fn enqueue(self, service_invocation: ServiceInvocation) -> InboxView {
        InboxView {
            entries: self.entries.push(
                InboxEntry {
                    inbox_sequence_number: self.next_sequence_number,
                    service_invocation,
                },
            ),
            next_sequence_number: (self.next_sequence_number + 1) as MessageIndex,
        }
    }

    /// The inbox after removing its head, and the removed entry: the queued
    /// entry with the smallest sequence number, or `None` when empty.
    pub open spec fn dequeue(self) -> (InboxView, Option<InboxEntry>) {
        if self.entries.len() == 0 {
            (self, Option::None)
        } else {
            (
                InboxView {
                    entries: self.entries.remove(0),
                    next_sequence_number: self.next_sequence_number,
                },
                Option::Some(self.entries[0]),
            )
        }
    }
}

/// Enqueueing preserves well-formedness.
pub proof fn lemma_enqueue_preserves_wf(v: InboxView, service_invocation: ServiceInvocation)
    requires
        v.wf(),
        v.next_sequence_number < MessageIndex::MAX,
    ensures
        v.enqueue(service_invocation).wf(),
{
}

/// Dequeueing preserves well-formedness.
pub proof fn lemma_dequeue_preserves_wf(v: InboxView)
    requires
        v.wf(),
    ensures
        v.dequeue().0.wf(),
{
    if v.entries.len() > 0 {
        let rest = v.dequeue().0.entries;
        assert forall|i: int| 0 <= i < rest.len() implies #[trigger] rest[i]
            == v.entries[i + 1] by {}
    }
}

/// First-in, first-out: the dequeued entry has a strictly smaller sequence
/// number than every invocation still queued, so invocations for one
/// service instance execute in strictly increasing sequence-number order,
/// with no interleaving.
pub proof fn lemma_inbox_fifo(v: InboxView)
    requires
        v.wf(),
        v.len() > 0,
    ensures
        v.dequeue().1 is Some,
        forall|k: int|
            0 <= k < v.dequeue().0.entries.len()
                ==> v.dequeue().1->Some_0.inbox_sequence_number < #[trigger] v.dequeue()
                .0
                .entries[k].inbox_sequence_number,
{
    let rest = v.dequeue().0.entries;
    assert forall|k: int| 0 <= k < rest.len() implies v.dequeue().1->Some_0.inbox_sequence_number
        < #[trigger] rest[k].inbox_sequence_number by {
        assert(rest[k] == v.entries[k + 1]);
    }
}

/// Two entries dequeued one after the other leave in ascending
/// sequence-number order.
pub proof fn lemma_inbox_fifo_pair(v: InboxView)
    requires
        v.wf(),
        v.len() >= 2,
    ensures
        v.dequeue().1->Some_0.inbox_sequence_number < v.dequeue().0.dequeue()
            .1->Some_0.inbox_sequence_number,
{
    lemma_inbox_fifo(v);
}

/// The inbox of one service instance: invocations queued while the
/// instance is busy, in strictly increasing sequence-number order.
#[derive(Debug)]
pub struct Inbox {
    entries: Vec<InboxEntry>,
    next_sequence_number: MessageIndex,
}

impl View for Inbox {
    type V = InboxView;

    closed spec fn view(&self) -> InboxView {
        InboxView { entries: self.entries@, next_sequence_number: self.next_sequence_number }
    }
}

impl Inbox {
    pub fn new() -> (r: Self)
        ensures
            r@.entries == Seq::<InboxEntry>::empty(),
            r@.next_sequence_number == 0u64,
            r@.wf(),
    {
        Inbox { entries: Vec::new(), next_sequence_number: 0 }
    }

    pub fn len(&self) -> (n: usize)
        ensures
            n == self@.len(),
    {
        self.entries.len()
    }

    pub fn is_empty(&self) -> (r: bool)
        ensures
            r == (self@.len() == 0),
    {
        self.entries.is_empty()
    }

    /// Queue `service_invocation` behind every invocation already waiting.
    /// Returns the assigned sequence number.
    pub fn enqueue(&mut self, service_invocation: ServiceInvocation) -> (seq: MessageIndex)
        requires
            old(self)@.wf(),
            old(self)@.next_sequence_number < MessageIndex::MAX,
        ensures
            final(self)@ == old(self)@.enqueue(service_invocation),
            final(self)@.wf(),
            seq == old(self)@.next_sequence_number,
    {
        proof {
            lemma_enqueue_preserves_wf(self@, service_invocation);
        }
        let seq = self.next_sequence_number;
        self.entries.push(InboxEntry { inbox_sequence_number: seq, service_invocation });
        self.next_sequence_number = seq + 1;
        seq
    }

    /// Remove and return the queued invocation with the smallest sequence
    /// number, if any.
    pub fn dequeue(&mut self) -> (r: Option<InboxEntry>)
        requires
            old(self)@.wf(),
        ensures
            (final(self)@, r) == old(self)@.dequeue(),
            final(self)@.wf(),
    {
        proof {
            lemma_dequeue_preserves_wf(self@);
        }
        if self.entries.is_empty() {
            None
        } else {
            Some(self.entries.remove(0))
        }
    }
}

} // verus!
