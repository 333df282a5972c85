//! Invocation state machine: owns the lifecycle of one service-instance
//! invocation, `Free -> Invoked -> Suspended -> Invoked -> Free`, driven by
//! journal growth and completion arrival.
//!
//! Every operation is total: an attempted transition that would violate the
//! single-active-invocation rule is rejected with an error and leaves the
//! state untouched, never silently dropped. Each partition is a single
//! logical writer, so the operations here are plain sequential mutations of
//! the instance's durable state; the embedding runtime persists an
//! operation's effects atomically before acting on them.

use std::collections::HashSet;

use vstd::prelude::*;

use crate::identity::{
    spec_partition_key, EntryIndex, InvocationId, MessageIndex, PartitionId, PartitionKey,
    ServiceId, ServiceInvocationId,
};
use crate::inbox::{Inbox, InboxEntry, InboxView};
use crate::invocation::{ResponseResult, ServiceInvocation};
use crate::journal::{
    CompletionResult, EnrichedRawEntry, Journal, JournalMetadata, JournalStatus, JournalView,
    RawEntry,
};
use crate::outbox::{resolve_response_sink, spec_resolve_response_sink, Outbox, OutboxView};
use crate::status::{InvocationStatus, InvokedStatus, StatusView, SuspendedStatus};
use crate::timer::TimerKey;

verus! {

broadcast use vstd::std_specs::hash::group_hash_axioms;

/// Errors surfaced to the caller of a state-machine operation. The state is
/// never mutated when an operation returns an error. A failure of the
/// storage collaborator is not represented here: the embedding layer
/// persists an operation's effects as one atomic batch and retries the
/// whole operation if the batch fails, so no partial effect is ever
/// observable.
#[derive(Debug, Clone, Copy, PartialEq, Eq, Structural)]
pub enum StateError {
    /// The attempted transition would violate the lifecycle rules of the
    /// single active invocation; the caller asked for something the current
    /// status cannot do.
    InvalidStatusTransition,
    /// A completion references an invocation this instance has no record
    /// of: it already completed, or never ran here. The caller logs and
    /// discards the completion.
    UnknownInvocation,
    /// The operation targets a key outside this partition's current
    /// ownership; the caller must re-resolve ownership and retry elsewhere.
    PartitionKeyMismatch,
}

/// The partition-ownership context injected into externally driven
/// operations: the partition this processor currently owns, as an inclusive
/// range of partition keys. The core only acts on keys in this range.
#[derive(Debug, Clone, Copy, PartialEq, Eq, Structural)]
pub struct PartitionOwnership {
    pub partition_id: PartitionId,
    /// Smallest owned partition key.
    pub range_start: PartitionKey,
    /// Largest owned partition key.
    pub range_end: PartitionKey,
}

impl PartitionOwnership {
    pub open spec fn spec_owns(self, key: PartitionKey) -> bool {
        self.range_start <= key <= self.range_end
    }

    /// Whether `key` falls in this partition's owned range.
    pub fn owns(&self, key: PartitionKey) -> (r: bool)
        ensures
            r == self.spec_owns(key),
    {
        self.range_start <= key && key <= self.range_end
    }
}

/// What became of an admitted invocation.
#[derive(Debug, PartialEq)]
pub enum InvocationOutcome {
    /// The instance was free: the invocation started, with a fresh journal.
    /// Its argument is handed back so the execution layer can run it.
    Started { argument: Vec<u8> },
    /// The instance was busy: the invocation was queued in the inbox under
    /// the returned sequence number, and the current status is untouched.
    Enqueued { sequence_number: MessageIndex },
}

/// How a completion was absorbed.
#[derive(Debug, Clone, Copy, PartialEq, Eq, Structural)]
pub enum CompletionOutcome {
    /// Applied to an awaited entry; other entries are still awaited.
    Applied,
    /// Applied to the last awaited entry: the invocation is runnable again.
    Resumed,
    /// The referenced entry index is not awaited (a duplicate, late or
    /// stray completion); nothing changed.
    Ignored,
}

/// How a suspension request ended.
#[derive(Debug, Clone, Copy, PartialEq, Eq, Structural)]
pub enum SuspendOutcome {
    /// At least one awaited entry is still pending: the invocation yielded.
    Suspended,
    /// Every awaited entry had already completed: the invocation stays
    /// runnable and no suspension is recorded.
    AlreadyCompleted,
}

/// The invocation pulled from the inbox when its predecessor ended. Its
/// method name and span context are recorded in the new journal metadata.
#[derive(Debug, PartialEq)]
pub struct NextInvocation {
    pub invocation_id: InvocationId,
    pub argument: Vec<u8>,
}

/// The effects of ending an invocation.
#[derive(Debug, PartialEq)]
pub struct EndOutcome {
    /// Index of the response message placed in the outbox, if the ended
    /// invocation recorded a response sink.
    pub response_message_index: Option<MessageIndex>,
    /// The next queued invocation, started immediately in inbox order, if
    /// the inbox was not empty.
    pub next: Option<NextInvocation>,
}

/// Mathematical model of an [`InstanceState`].
pub struct InstanceView {
    pub status: StatusView,
    pub journal: JournalView,
    pub inbox: InboxView,
}

impl InstanceView {
    /// Well-formed instance state: the journal and inbox are well-formed; a
    /// free instance has no journal; an active one has journal metadata
    /// whose length equals the journal's; a suspended one awaits a
    /// non-empty set of existing, completable, still-pending entries.
    pub open spec fn wf(self) -> bool {
        &&& self.journal.wf()
        &&& self.inbox.wf()
        &&& match self.status {
            StatusView::Free => self.journal.len() == 0,
            StatusView::Invoked { journal_metadata, .. } => journal_metadata.length
                == self.journal.len(),
            StatusView::Suspended { journal_metadata, waiting, .. } => {
                &&& journal_metadata.length == self.journal.len()
                &&& !waiting.is_empty()
                &&& forall|i: EntryIndex| #[trigger]
                    waiting.contains(i) ==> self.journal.can_complete(i as int)
            },
        }
    }

    /// Transition for an admitted invocation: a free instance starts it
    /// with fresh journal metadata of length 0 and records its response
    /// sink; a busy instance queues it in the inbox and keeps its status.
    pub open spec fn invoke_transition(self, inv: ServiceInvocation) -> (InstanceView,
        InvocationOutcome,
    ) {
        if self.status is Free {
            (
                InstanceView {
                    status: StatusView::Invoked {
                        invocation_id: inv.id.invocation_id,
                        journal_metadata: JournalMetadata {
                            length: 0u32,
                            method: inv.method_name,
                            span_context: inv.span_context,
                        },
                        response_sink: inv.response_sink,
                    },
                    journal: self.journal,
                    inbox: self.inbox,
                },
                InvocationOutcome::Started { argument: inv.argument },
            )
        } else {
            (
                InstanceView {
                    status: self.status,
                    journal: self.journal,
                    inbox: self.inbox.enqueue(inv),
                },
                InvocationOutcome::Enqueued {
                    sequence_number: self.inbox.next_sequence_number,
                },
            )
        }
    }

    /// Transition for appending an effect entry while the invocation runs:
    /// the entry takes the next index and the journal metadata grows with
    /// it. Any other status leaves the state unchanged (the operation is
    /// rejected).
    pub open spec fn append_transition(self, entry: EnrichedRawEntry) -> InstanceView {
        match self.status {
            StatusView::Invoked { invocation_id, journal_metadata, response_sink } => InstanceView {
                status: StatusView::Invoked {
                    invocation_id,
                    journal_metadata: JournalMetadata {
                        length: (journal_metadata.length + 1) as EntryIndex,
                        method: journal_metadata.method,
                        span_context: journal_metadata.span_context,
                    },
                    response_sink,
                },
                journal: self.journal.append(entry),
                inbox: self.inbox,
            },
            _ => self,
        }
    }

    /// Whether a suspension on `indexes` is admissible: the invocation is
    /// running and every awaited index names an existing, completable
    /// journal entry. An empty awaited list is a caller error.
    pub open spec fn can_suspend(self, indexes: Seq<EntryIndex>) -> bool {
        &&& self.status is Invoked
        &&& indexes.len() > 0
        &&& forall|k: int|
            0 <= k < indexes.len() ==> (#[trigger] indexes[k]) < self.journal.len()
                && self.journal.entries[indexes[k] as int].header.completable()
    }

    /// Of the awaited indexes, those whose entries have not completed yet.
    pub open spec fn pending_entries(self, indexes: Seq<EntryIndex>) -> Set<EntryIndex> {
        indexes.to_set().filter(|i: EntryIndex| !self.journal.entry_completed(i as int))
    }

    /// Transition for a suspension request: the still-pending awaited
    /// indexes become the waiting set. If every awaited entry already
    /// completed, the invocation stays runnable and nothing changes.
    pub open spec fn suspend_transition(self, indexes: Seq<EntryIndex>) -> (InstanceView, Result<
        SuspendOutcome,
        StateError,
    >) {
        if !self.can_suspend(indexes) {
            (self, Err(StateError::InvalidStatusTransition))
        } else {
            let waiting = self.pending_entries(indexes);
            if waiting.is_empty() {
                (self, Ok(SuspendOutcome::AlreadyCompleted))
            } else {
                match self.status {
                    StatusView::Invoked { invocation_id, journal_metadata, response_sink } => (
                        InstanceView {
                            status: StatusView::Suspended {
                                invocation_id,
                                journal_metadata,
                                response_sink,
                                waiting,
                            },
                            journal: self.journal,
                            inbox: self.inbox,
                        },
                        Ok(SuspendOutcome::Suspended),
                    ),
                    _ => (self, Err(StateError::InvalidStatusTransition)),
                }
            }
        }
    }

    /// Transition for an arriving completion. A completion for a free
    /// instance or a foreign invocation id is unknown and discarded; one
    /// for a running (not suspended) invocation, or for an index not in the
    /// waiting set, is a duplicate or stray and ignored without any state
    /// change. A completion for an awaited index resolves the journal
    /// entry, shrinks the waiting set, and resumes the invocation when the
    /// waiting set empties.
    pub open spec fn completion_transition(
        self,
        invocation_id: InvocationId,
        entry_index: EntryIndex,
        result: CompletionResult,
    ) -> (InstanceView, Result<CompletionOutcome, StateError>) {
        match self.status {
            StatusView::Free => (self, Err(StateError::UnknownInvocation)),
            StatusView::Invoked { invocation_id: active, .. } => {
                if active == invocation_id {
                    (self, Ok(CompletionOutcome::Ignored))
                } else {
                    (self, Err(StateError::UnknownInvocation))
                }
            },
            StatusView::Suspended {
                invocation_id: active,
                journal_metadata,
                response_sink,
                waiting,
            } => {
                if active != invocation_id {
                    (self, Err(StateError::UnknownInvocation))
                } else if !waiting.contains(entry_index) {
                    (self, Ok(CompletionOutcome::Ignored))
                } else {
                    let journal = self.journal.apply_completion(entry_index as int, result);
                    let still_waiting = waiting.remove(entry_index);
                    if still_waiting.is_empty() {
                        (
                            InstanceView {
                                status: StatusView::Invoked {
                                    invocation_id: active,
                                    journal_metadata,
                                    response_sink,
                                },
                                journal,
                                inbox: self.inbox,
                            },
                            Ok(CompletionOutcome::Resumed),
                        )
                    } else {
                        (
                            InstanceView {
                                status: StatusView::Suspended {
                                    invocation_id: active,
                                    journal_metadata,
                                    response_sink,
                                    waiting: still_waiting,
                                },
                                journal,
                                inbox: self.inbox,
                            },
                            Ok(CompletionOutcome::Applied),
                        )
                    }
                }
            },
        }
    }

    /// Transition for a terminal entry: the invocation's result is routed
    /// to its recorded sink through the outbox, the journal is discarded,
    /// and — if the inbox is non-empty — the next invocation starts
    /// immediately in sequence-number order. Only a running invocation can
    /// end.
    pub open spec fn end_transition(
        self,
        outbox: OutboxView,
        service_id: ServiceId,
        result: ResponseResult,
    ) -> (InstanceView, OutboxView, Result<EndOutcome, StateError>) {
        match self.status {
            StatusView::Invoked { invocation_id, journal_metadata, response_sink } => {
                let outbox2 = match response_sink {
                    Option::Some(sink) => outbox.enqueue(
                        spec_resolve_response_sink(
                            sink,
                            ServiceInvocationId { service_id, invocation_id },
                            result,
                        ),
                    ),
                    Option::None => outbox,
                };
                let response_message_index = match response_sink {
                    Option::Some(_) => Option::Some(
                        outbox.next_sequence_number() as MessageIndex,
                    ),
                    Option::None => Option::None,
                };
                let (inbox2, next_entry) = self.inbox.dequeue();
                match next_entry {
                    Option::Some(entry) => (
                        InstanceView {
                            status: StatusView::Invoked {
                                invocation_id: entry.service_invocation.id.invocation_id,
                                journal_metadata: JournalMetadata {
                                    length: 0u32,
                                    method: entry.service_invocation.method_name,
                                    span_context: entry.service_invocation.span_context,
                                },
                                response_sink: entry.service_invocation.response_sink,
                            },
                            journal: JournalView::empty(),
                            inbox: inbox2,
                        },
                        outbox2,
                        Ok(EndOutcome {
                            response_message_index,
                            next: Option::Some(
                                NextInvocation {
                                    invocation_id: entry.service_invocation.id.invocation_id,
                                    argument: entry.service_invocation.argument,
                                },
                            ),
                        }),
                    ),
                    Option::None => (
                        InstanceView {
                            status: StatusView::Free,
                            journal: JournalView::empty(),
                            inbox: inbox2,
                        },
                        outbox2,
                        Ok(EndOutcome { response_message_index, next: Option::None }),
                    ),
                }
            },
            _ => (self, outbox, Err(StateError::InvalidStatusTransition)),
        }
    }
}

/// The durable state of one service instance, owned and serialized by the
/// partition that owns the instance's partition key: its lifecycle status,
/// the journal of the active invocation, and the inbox of queued
/// invocations. Storage is the arena; this value is what the owning
/// partition loads, mutates through the operations below, and persists.
#[derive(Debug)]
pub struct InstanceState {
    status: InvocationStatus,
    journal: Journal,
    inbox: Inbox,
}

impl View for InstanceState {
    type V = InstanceView;

    closed spec fn view(&self) -> InstanceView {
        InstanceView { status: self.status@, journal: self.journal@, inbox: self.inbox@ }
    }
}

impl InstanceState {
    /// A fresh, free instance with an empty journal and inbox.
    pub fn new() -> (r: Self)
        ensures
            r@.status is Free,
            r@.journal == JournalView::empty(),
            r@.inbox.entries == Seq::<InboxEntry>::empty(),
            r@.inbox.next_sequence_number == 0u64,
            r@.wf(),
    {
        InstanceState { status: InvocationStatus::Free, journal: Journal::new(), inbox: Inbox::new() }
    }

    pub fn status(&self) -> (r: &InvocationStatus)
        ensures
            r@ == self@.status,
    {
        &self.status
    }

    pub fn journal_length(&self) -> (n: usize)
        ensures
            n == self@.journal.len(),
    {
        self.journal.len()
    }

    pub fn inbox_length(&self) -> (n: usize)
        ensures
            n == self@.inbox.len(),
    {
        self.inbox.len()
    }

    /// The status of the active invocation's journal — its length and span
    /// context — or `None` while the instance is free.
    pub fn journal_status(&self) -> (r: Option<JournalStatus>)
        ensures
            r is Some <==> !(self@.status is Free),
            self@.status matches StatusView::Invoked { journal_metadata, .. } ==> r
                == Some(JournalStatus {
                length: journal_metadata.length,
                span_context: journal_metadata.span_context,
            }),
            self@.status matches StatusView::Suspended { journal_metadata, .. } ==> r
                == Some(JournalStatus {
                length: journal_metadata.length,
                span_context: journal_metadata.span_context,
            }),
    {
        match &self.status {
            InvocationStatus::Invoked(s) => Some(
                JournalStatus {
                    length: s.journal_metadata.length,
                    span_context: s.journal_metadata.span_context,
                },
            ),
            InvocationStatus::Suspended(s) => Some(
                JournalStatus {
                    length: s.journal_metadata.length,
                    span_context: s.journal_metadata.span_context,
                },
            ),
            InvocationStatus::Free => None,
        }
    }

    /// The journal entry at `idx`, for replaying the journal to a resumed
    /// invocation.
    pub fn journal_entry(&self, idx: EntryIndex) -> (r: &EnrichedRawEntry)
        requires
            idx < self@.journal.len(),
        ensures
            *r == self@.journal.entries[idx as int],
    {
        self.journal.entry_at(idx)
    }

    /// The completion stored for the journal entry at `idx`, if one
    /// arrived out-of-band; its value is what a resumed invocation reads.
    pub fn journal_completion(&self, idx: EntryIndex) -> (r: &Option<CompletionResult>)
        requires
            self@.wf(),
            idx < self@.journal.len(),
        ensures
            *r == self@.journal.completions[idx as int],
    {
        self.journal.stored_completion(idx)
    }

    /// Admit an invocation routed to this instance. If this partition does
    /// not own the invocation's partition key the operation is rejected
    /// untouched; otherwise a free instance starts the invocation and a
    /// busy one queues it.
    pub fn on_invocation(
        &mut self,
        ownership: &PartitionOwnership,
        service_invocation: ServiceInvocation,
    ) -> (r: Result<InvocationOutcome, StateError>)
        requires
            old(self)@.wf(),
            old(self)@.inbox.next_sequence_number < MessageIndex::MAX,
        ensures
            final(self)@.wf(),
            !ownership.spec_owns(spec_partition_key(service_invocation.id.service_id.key@))
                ==> final(self)@ == old(self)@ && r == Err::<InvocationOutcome, StateError>(
                StateError::PartitionKeyMismatch,
            ),
            ownership.spec_owns(spec_partition_key(service_invocation.id.service_id.key@)) ==> (
            final(self)@, r) == {
                let (s, o) = old(self)@.invoke_transition(service_invocation);
                (s, Ok::<InvocationOutcome, StateError>(o))
            },
    {
        let partition_key = service_invocation.id.service_id.partition_key();
        if !ownership.owns(partition_key) {
            return Err(StateError::PartitionKeyMismatch);
        }
        if matches!(self.status, InvocationStatus::Free) {
            let ServiceInvocation { id, method_name, argument, response_sink, span_context } =
                service_invocation;
            self.status = InvocationStatus::Invoked(
                InvokedStatus {
                    invocation_id: id.invocation_id,
                    journal_metadata: JournalMetadata {
                        length: 0,
                        method: method_name,
                        span_context,
                    },
                    response_sink,
                },
            );
            Ok(InvocationOutcome::Started { argument })
        } else {
            let sequence_number = self.inbox.enqueue(service_invocation);
            Ok(InvocationOutcome::Enqueued { sequence_number })
        }
    }

    /// Append an effect entry to the running invocation's journal. The
    /// entry is assigned the next sequential index, which is returned.
    /// Rejected unless the status is `Invoked`: a free instance has no
    /// journal and a suspended invocation cannot produce effects.
    pub fn append_entry(&mut self, entry: EnrichedRawEntry) -> (r: Result<EntryIndex, StateError>)
        requires
            old(self)@.wf(),
            old(self)@.journal.len() < EntryIndex::MAX,
        ensures
            final(self)@.wf(),
            final(self)@ == old(self)@.append_transition(entry),
            old(self)@.status is Invoked ==> r == Ok::<EntryIndex, StateError>(
                old(self)@.journal.len() as EntryIndex,
            ),
            !(old(self)@.status is Invoked) ==> r == Err::<EntryIndex, StateError>(
                StateError::InvalidStatusTransition,
            ),
    {
        match &mut self.status {
            InvocationStatus::Invoked(s) => {
                let idx = self.journal.append(entry);
                s.journal_metadata.length = s.journal_metadata.length + 1;
                Ok(idx)
            },
            _ => Err(StateError::InvalidStatusTransition),
        }
    }

    /// Suspend the running invocation until the entries at `entry_indexes`
    /// complete. Awaited entries that already completed are not waited for;
    /// if none is still pending the invocation stays runnable. Rejected
    /// when the status is not `Invoked`, when the awaited list is empty, or
    /// when an awaited index does not name a completable journal entry.
    pub fn suspend(&mut self, entry_indexes: &Vec<EntryIndex>) -> (r: Result<
        SuspendOutcome,
        StateError,
    >)
        requires
            old(self)@.wf(),
        ensures
            final(self)@.wf(),
            (final(self)@, r) == old(self)@.suspend_transition(entry_indexes@),
    {
        if !matches!(self.status, InvocationStatus::Invoked(_)) {
            return Err(StateError::InvalidStatusTransition);
        }
        if entry_indexes.len() == 0 {
            return Err(StateError::InvalidStatusTransition);
        }
        let mut waiting: HashSet<EntryIndex> = HashSet::new();
        let mut k: usize = 0;
        while k < entry_indexes.len()
            invariant
                self == old(self),
                self@.wf(),
                self@.status is Invoked,
                0 < entry_indexes@.len(),
                k <= entry_indexes@.len(),
                forall|j: int|
                    0 <= j < k ==> (#[trigger] entry_indexes@[j]) < self@.journal.len()
                        && self@.journal.entries[entry_indexes@[j] as int].header.completable(),
                forall|x: EntryIndex| #[trigger]
                    waiting@.contains(x) <==> (exists|j: int|
                        0 <= j < k && entry_indexes@[j] == x && !self@.journal.entry_completed(
                            x as int,
                        )),
            decreases entry_indexes@.len() - k,
        {
            let idx = entry_indexes[k];
            if !((idx as usize) < self.journal.len()) {
                return Err(StateError::InvalidStatusTransition);
            }
            if !self.journal.is_entry_completable(idx) {
                return Err(StateError::InvalidStatusTransition);
            }
            if !self.journal.is_entry_completed(idx) {
                waiting.insert(idx);
            }
            k = k + 1;
        }
        proof {
            assert(self@.can_suspend(entry_indexes@));
            assert(waiting@ =~= self@.pending_entries(entry_indexes@));
        }
        if waiting.is_empty() {
            return Ok(SuspendOutcome::AlreadyCompleted);
        }
        let mut status = InvocationStatus::Free;
        core::mem::swap(&mut status, &mut self.status);
        match status {
            InvocationStatus::Invoked(s) => {
                self.status = InvocationStatus::Suspended(
                    SuspendedStatus {
                        invocation_id: s.invocation_id,
                        journal_metadata: s.journal_metadata,
                        response_sink: s.response_sink,
                        waiting_for_completed_entries: waiting,
                    },
                );
                Ok(SuspendOutcome::Suspended)
            },
            _ => {
                proof {
                    assert(false);
                }
                Err(StateError::InvalidStatusTransition)
            },
        }
    }

    /// Absorb a completion addressed to `invocation_id` for the entry at
    /// `entry_index`. See [`InstanceView::completion_transition`] for the
    /// exact rule; duplicates and completions for non-awaited indexes are
    /// no-ops, and a completion for an unknown invocation is reported so
    /// the caller can log and discard it.
    pub fn on_completion(
        &mut self,
        invocation_id: InvocationId,
        entry_index: EntryIndex,
        result: CompletionResult,
    ) -> (r: Result<CompletionOutcome, StateError>)
        requires
            old(self)@.wf(),
        ensures
            final(self)@.wf(),
            (final(self)@, r) == old(self)@.completion_transition(
                invocation_id,
                entry_index,
                result,
            ),
    {
        match &self.status {
            InvocationStatus::Free => {
                return Err(StateError::UnknownInvocation);
            },
            InvocationStatus::Invoked(s) => {
                if s.invocation_id == invocation_id {
                    return Ok(CompletionOutcome::Ignored);
                } else {
                    return Err(StateError::UnknownInvocation);
                }
            },
            InvocationStatus::Suspended(s) => {
                if s.invocation_id != invocation_id {
                    return Err(StateError::UnknownInvocation);
                }
                if !s.waiting_for_completed_entries.contains(&entry_index) {
                    return Ok(CompletionOutcome::Ignored);
                }
            },
        }
        self.journal.apply_completion(entry_index, result);
        let mut status = InvocationStatus::Free;
        core::mem::swap(&mut status, &mut self.status);
        match status {
            InvocationStatus::Suspended(mut s) => {
                s.waiting_for_completed_entries.remove(&entry_index);
                if s.waiting_for_completed_entries.is_empty() {
                    self.status = InvocationStatus::Invoked(
                        InvokedStatus {
                            invocation_id: s.invocation_id,
                            journal_metadata: s.journal_metadata,
                            response_sink: s.response_sink,
                        },
                    );
                    proof {
                        lemma_completion_preserves_wf(
                            old(self)@,
                            invocation_id,
                            entry_index,
                            result,
                        );
                    }
                    Ok(CompletionOutcome::Resumed)
                } else {
                    self.status = InvocationStatus::Suspended(s);
                    proof {
                        lemma_completion_preserves_wf(
                            old(self)@,
                            invocation_id,
                            entry_index,
                            result,
                        );
                    }
                    Ok(CompletionOutcome::Applied)
                }
            },
            _ => {
                proof {
                    assert(false);
                }
                Err(StateError::UnknownInvocation)
            },
        }
    }

    /// Fire a registered timer: equivalent to delivering a synthetic empty
    /// completion to the recorded journal index through the normal
    /// completion path. A timer firing twice is absorbed by the same
    /// duplicate-completion rule, so firing is idempotent.
    pub fn fire_timer(&mut self, timer_key: &TimerKey) -> (r: Result<
        CompletionOutcome,
        StateError,
    >)
        requires
            old(self)@.wf(),
        ensures
            final(self)@.wf(),
            (final(self)@, r) == old(self)@.completion_transition(
                timer_key.service_invocation_id.invocation_id,
                timer_key.journal_index,
                CompletionResult::Empty,
            ),
    {
        self.on_completion(
            timer_key.service_invocation_id.invocation_id,
            timer_key.journal_index,
            CompletionResult::Empty,
        )
    }

    /// End the running invocation with `result`: the response is resolved
    /// against the recorded sink and placed in the outbox before the
    /// transition completes, the journal is discarded, and the next queued
    /// invocation, if any, starts immediately in sequence-number order.
    /// `service_id` is the key under which the caller stores this instance;
    /// it addresses the ingress response of the ended invocation.
    pub fn end_invocation(
        &mut self,
        service_id: ServiceId,
        result: ResponseResult,
        outbox: &mut Outbox,
    ) -> (r: Result<EndOutcome, StateError>)
        requires
            old(self)@.wf(),
            old(outbox)@.wf(),
            old(outbox)@.next_sequence_number() < MessageIndex::MAX,
        ensures
            final(self)@.wf(),
            final(outbox)@.wf(),
            (final(self)@, final(outbox)@, r) == old(self)@.end_transition(
                old(outbox)@,
                service_id,
                result,
            ),
    {
        if !matches!(self.status, InvocationStatus::Invoked(_)) {
            return Err(StateError::InvalidStatusTransition);
        }
        let mut status = InvocationStatus::Free;
        core::mem::swap(&mut status, &mut self.status);
        match status {
            InvocationStatus::Invoked(s) => {
                let response_message_index = match s.response_sink {
                    Some(sink) => {
                        let message = resolve_response_sink(
                            sink,
                            ServiceInvocationId { service_id, invocation_id: s.invocation_id },
                            result,
                        );
                        Some(outbox.enqueue(message))
                    },
                    None => None,
                };
                self.journal.clear();
                match self.inbox.dequeue() {
                    Some(entry) => {
                        let ServiceInvocation {
                            id,
                            method_name,
                            argument,
                            response_sink,
                            span_context,
                        } = entry.service_invocation;
                        self.status = InvocationStatus::Invoked(
                            InvokedStatus {
                                invocation_id: id.invocation_id,
                                journal_metadata: JournalMetadata {
                                    length: 0,
                                    method: method_name,
                                    span_context,
                                },
                                response_sink,
                            },
                        );
                        Ok(
                            EndOutcome {
                                response_message_index,
                                next: Some(
                                    NextInvocation {
                                        invocation_id: id.invocation_id,
                                        argument,
                                    },
                                ),
                            },
                        )
                    },
                    None => Ok(EndOutcome { response_message_index, next: None }),
                }
            },
            _ => {
                proof {
                    assert(false);
                }
                Err(StateError::InvalidStatusTransition)
            },
        }
    }
}

/// Absorbing a completion preserves well-formedness of the instance state.
pub proof fn lemma_completion_preserves_wf(
    m: InstanceView,
    invocation_id: InvocationId,
    entry_index: EntryIndex,
    result: CompletionResult,
)
    requires
        m.wf(),
    ensures
        m.completion_transition(invocation_id, entry_index, result).0.wf(),
{
    match m.status {
        StatusView::Suspended { invocation_id: active, waiting, .. } => {
            if active == invocation_id && waiting.contains(entry_index) {
                let journal = m.journal.apply_completion(entry_index as int, result);
                crate::journal::lemma_apply_completion_preserves_wf(
                    m.journal,
                    entry_index as int,
                    result,
                );
                let still_waiting = waiting.remove(entry_index);
                assert forall|i: EntryIndex| #[trigger]
                    still_waiting.contains(i) implies journal.can_complete(i as int) by {
                    assert(waiting.contains(i));
                    assert(i != entry_index);
                    assert(journal.entries[i as int] == m.journal.entries[i as int]);
                }
            }
        },
        _ => {},
    }
}

/// At most one invocation is ever active per service instance: admitting a
/// new invocation while the status is not `Free` leaves the current status
/// exactly as it is and only queues the newcomer in the inbox, under the
/// next sequence number.
pub proof fn lemma_busy_instance_queues(m: InstanceView, inv: ServiceInvocation)
    requires
        m.wf(),
        !(m.status is Free),
    ensures
        m.invoke_transition(inv).0.status == m.status,
        m.invoke_transition(inv).0.journal == m.journal,
        m.invoke_transition(inv).0.inbox.entries == m.inbox.entries.push(
            InboxEntry {
                inbox_sequence_number: m.inbox.next_sequence_number,
                service_invocation: inv,
            },
        ),
        m.invoke_transition(inv).1 == (InvocationOutcome::Enqueued {
            sequence_number: m.inbox.next_sequence_number,
        }),
{
}

/// Applying the same completion result to the same entry index twice
/// yields the same journal and status as applying it once: the second
/// delivery finds the index no longer awaited and is absorbed as a no-op.
pub proof fn lemma_completion_idempotent(
    m: InstanceView,
    invocation_id: InvocationId,
    entry_index: EntryIndex,
    result: CompletionResult,
)
    requires
        m.wf(),
    ensures
        ({
            let once = m.completion_transition(invocation_id, entry_index, result).0;
            once.completion_transition(invocation_id, entry_index, result).0 == once
        }),
{
    let once = m.completion_transition(invocation_id, entry_index, result).0;
    match m.status {
        StatusView::Suspended { invocation_id: active, waiting, .. } => {
            if active == invocation_id && waiting.contains(entry_index) {
                assert(!waiting.remove(entry_index).contains(entry_index));
            }
        },
        _ => {},
    }
}

/// Round trip: an invocation that appends a pending entry, suspends
/// awaiting it, and is resumed by the matching completion reaches the same
/// terminal outcome as one whose entry was completed synchronously by the
/// endpoint. Ending the invocation from either state emits the same
/// response message into the same outbox and leaves the same final state.
pub proof fn lemma_round_trip(
    m: InstanceView,
    outbox: OutboxView,
    entry: EnrichedRawEntry,
    result: CompletionResult,
    service_id: ServiceId,
    response: ResponseResult,
)
    requires
        m.wf(),
        m.status is Invoked,
        m.journal.len() < EntryIndex::MAX,
        entry.header.completable(),
        !entry.header.completed(),
    ensures
        ({
            let idx = m.journal.len() as EntryIndex;
            let invocation_id = m.status->Invoked_invocation_id;
            let suspended = m.append_transition(entry).suspend_transition(seq![idx]);
            let resumed = suspended.0.completion_transition(invocation_id, idx, result);
            let sync = m.append_transition(
                RawEntry { header: entry.header.after_completion(), entry: entry.entry },
            );
            &&& suspended.1 == Ok::<SuspendOutcome, StateError>(SuspendOutcome::Suspended)
            &&& resumed.1 == Ok::<CompletionOutcome, StateError>(CompletionOutcome::Resumed)
            &&& resumed.0.end_transition(outbox, service_id, response) == sync.end_transition(
                outbox,
                service_id,
                response,
            )
        }),
{
    let idx = m.journal.len() as EntryIndex;
    let invocation_id = m.status->Invoked_invocation_id;
    let awaited = seq![idx];
    let a1 = m.append_transition(entry);
    assert(a1.journal.entries[idx as int] == entry);
    assert(awaited[0] == idx);
    assert(forall|x: EntryIndex| awaited.contains(x) ==> x == idx);
    assert(a1.can_suspend(awaited));
    let pending = a1.pending_entries(awaited);
    assert(awaited.contains(idx));
    assert(pending.contains(idx));
    assert(!pending.is_empty());
    let suspended = a1.suspend_transition(awaited);
    assert(suspended.1 == Ok::<SuspendOutcome, StateError>(SuspendOutcome::Suspended));
    let a2 = suspended.0;
    let resumed = a2.completion_transition(invocation_id, idx, result);
    assert(a2.journal.can_complete(idx as int));
    let still_waiting = pending.remove(idx);
    assert forall|x: EntryIndex| !(#[trigger] still_waiting.contains(x)) by {
        if still_waiting.contains(x) {
            assert(awaited.contains(x));
        }
    }
    assert(still_waiting =~= Set::<EntryIndex>::empty());
    assert(resumed.1 == Ok::<CompletionOutcome, StateError>(CompletionOutcome::Resumed));
    let sync = m.append_transition(
        RawEntry { header: entry.header.after_completion(), entry: entry.entry },
    );
    assert(resumed.0.status == sync.status);
    assert(resumed.0.inbox == sync.inbox);
}

/// Within one active episode the journal length is monotonic: admitting an
/// invocation, appending an entry, suspending and absorbing a completion
/// never shorten the journal. Only the terminal transition discards it.
pub proof fn lemma_journal_length_monotonic(
    m: InstanceView,
    inv: ServiceInvocation,
    entry: EnrichedRawEntry,
    indexes: Seq<EntryIndex>,
    invocation_id: InvocationId,
    entry_index: EntryIndex,
    result: CompletionResult,
)
    requires
        m.wf(),
    ensures
        m.invoke_transition(inv).0.journal.len() >= m.journal.len(),
        m.append_transition(entry).journal.len() >= m.journal.len(),
        m.suspend_transition(indexes).0.journal.len() == m.journal.len(),
        m.completion_transition(invocation_id, entry_index, result).0.journal.len()
            == m.journal.len(),
{
}

} // verus!
