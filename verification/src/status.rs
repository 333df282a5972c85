//! Lifecycle status of a service instance: `Free`, `Invoked` or
//! `Suspended`. Exactly one status holds per service instance at any time;
//! transitions happen only through the state machine.

use std::collections::HashSet;

use vstd::prelude::*;

use crate::identity::{EntryIndex, InvocationId};
use crate::invocation::ServiceInvocationResponseSink;
use crate::journal::JournalMetadata;

verus! {

broadcast use vstd::std_specs::hash::group_hash_axioms;

/// Status of a service instance.
#[derive(Debug, PartialEq)]
pub enum InvocationStatus {
    Invoked(InvokedStatus),
    Suspended(SuspendedStatus),
    /// Service instance is currently not invoked.
    Free,
}

/// An invocation is running (or resumable): its id, the journal header and
/// the recorded response sink.
#[derive(Debug, Clone, PartialEq)]
pub struct InvokedStatus {
    pub invocation_id: InvocationId,
    pub journal_metadata: JournalMetadata,
    pub response_sink: Option<ServiceInvocationResponseSink>,
}

impl InvokedStatus {
    pub fn new(
        invocation_id: InvocationId,
        journal_metadata: JournalMetadata,
        response_sink: Option<ServiceInvocationResponseSink>,
    ) -> (r: Self)
        ensures
            r == (InvokedStatus { invocation_id, journal_metadata, response_sink }),
    {
        Self { invocation_id, journal_metadata, response_sink }
    }
}

/// The invocation yielded while awaiting completions for the recorded set
/// of journal entry indexes.
#[derive(Debug, PartialEq)]
pub struct SuspendedStatus {
    pub invocation_id: InvocationId,
    pub journal_metadata: JournalMetadata,
    pub response_sink: Option<ServiceInvocationResponseSink>,
    pub waiting_for_completed_entries: HashSet<EntryIndex>,
}

impl SuspendedStatus {
    /// A suspension always awaits at least one entry.
    pub fn new(
        invocation_id: InvocationId,
        journal_metadata: JournalMetadata,
        response_sink: Option<ServiceInvocationResponseSink>,
        waiting_for_completed_entries: HashSet<EntryIndex>,
    ) -> (r: Self)
        requires
            !waiting_for_completed_entries@.is_empty(),
        ensures
            r == (SuspendedStatus {
                invocation_id,
                journal_metadata,
                response_sink,
                waiting_for_completed_entries,
            }),
    {
        Self { invocation_id, journal_metadata, response_sink, waiting_for_completed_entries }
    }
}

impl Default for InvocationStatus {
    /// A service instance without recorded status is `Free`.
    fn default() -> (r: Self)
        ensures
            r is Free,
    {
        InvocationStatus::Free
    }
}

/// Mathematical model of an [`InvocationStatus`]: the same three shapes,
/// with the awaited entry indexes as a set.
pub enum StatusView {
    Invoked {
        invocation_id: InvocationId,
        journal_metadata: JournalMetadata,
        response_sink: Option<ServiceInvocationResponseSink>,
    },
    Suspended {
        invocation_id: InvocationId,
        journal_metadata: JournalMetadata,
        response_sink: Option<ServiceInvocationResponseSink>,
        waiting: Set<EntryIndex>,
    },
    Free,
}

impl View for InvocationStatus {
    type V = StatusView;

    open spec fn view(&self) -> StatusView {
        match self {
            InvocationStatus::Invoked(s) => StatusView::Invoked {
                invocation_id: s.invocation_id,
                journal_metadata: s.journal_metadata,
                response_sink: s.response_sink,
            },
            InvocationStatus::Suspended(s) => StatusView::Suspended {
                invocation_id: s.invocation_id,
                journal_metadata: s.journal_metadata,
                response_sink: s.response_sink,
                waiting: s.waiting_for_completed_entries@,
            },
            InvocationStatus::Free => StatusView::Free,
        }
    }
}

/// At any observed instant a service instance is in exactly one lifecycle
/// state: at most one of `Invoked` and `Suspended` holds, and `Free` holds
/// exactly when neither does. Concurrent invocations targeting the same
/// instance are serialized by the state machine, which queues them while
/// the status is not `Free`.
pub proof fn lemma_single_active_status(s: StatusView)
    ensures
        !(s is Invoked && s is Suspended),
        s is Free <==> !(s is Invoked || s is Suspended),
{
}

} // verus!
