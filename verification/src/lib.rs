//! Invocation-tracking and journal core of a durable-execution runtime.
//!
//! For every keyed service instance this library records whether an
//! invocation is running, what effects it has produced, and how completions
//! and cross-partition messages are routed. The state machine, the journal
//! model and the routing rules are verified; storage, networking and
//! telemetry stay outside, behind plain-value interfaces.

pub mod config;
pub mod dedup;
pub mod identity;
pub mod inbox;
pub mod invocation;
pub mod journal;
pub mod outbox;
pub mod span;
pub mod state_machine;
pub mod status;
pub mod time;
pub mod timer;

pub use config::{ConfigError, LogFormat, MetadataStoreClient, ObjectStoreCredentials};
pub use dedup::{AckKind, DedupState};
pub use identity::{
    EntryIndex, HashPartitioner, InvocationId, LeaderEpoch, MessageIndex, PartitionId,
    PartitionKey, PartitionLeaderEpoch, PeerId, ServiceId, ServiceInvocationId,
};
pub use inbox::{Inbox, InboxEntry};
pub use invocation::{
    IngressId, InvocationResponse, ResponseResult, ServiceInvocation,
    ServiceInvocationResponseSink,
};
pub use journal::{
    CompletionResult, EnrichedEntryHeader, EnrichedRawEntry, Journal, JournalEntry,
    JournalMetadata, JournalStatus, RawEntry, ResolutionResult,
};
pub use outbox::{resolve_response_sink, Outbox, OutboxMessage};
pub use span::{ServiceInvocationSpanContext, SpanContext, SpanRelation};
pub use state_machine::{
    CompletionOutcome, EndOutcome, InstanceState, InvocationOutcome, NextInvocation,
    PartitionOwnership, StateError, SuspendOutcome,
};
pub use status::{InvocationStatus, InvokedStatus, SuspendedStatus};
pub use time::MillisSinceEpoch;
pub use timer::{Timer, TimerKey};
