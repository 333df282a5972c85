//! Outbox router and response-sink resolver: the durable, ordered queue of
//! messages destined for other partitions or for ingress clients, with
//! at-least-once delivery semantics, and the rule that maps a recorded
//! response sink to the outbound message for an invocation's result.

use vstd::prelude::*;

use crate::identity::{MessageIndex, ServiceInvocationId};
use crate::invocation::{
    IngressId, InvocationResponse, ResponseResult, ServiceInvocation,
    ServiceInvocationResponseSink,
};

verus! {

/// Types of outbox messages.
#[derive(Debug, Clone, PartialEq)]
pub enum OutboxMessage {
    /// Service invocation to send to another partition processor.
    ServiceInvocation(ServiceInvocation),
    /// Service response to send to another partition processor.
    ServiceResponse(InvocationResponse),
    /// Service response to send to an ingress as a response to an external
    /// client request.
    IngressResponse {
        ingress_id: IngressId,
        service_invocation_id: ServiceInvocationId,
        response: ResponseResult,
    },
}

/// The outbound message that delivers `result` of the invocation `id` to
/// its recorded `sink`: a partition-processor sink becomes a service
/// response addressed to the caller invocation and its entry index; an
/// ingress sink becomes an ingress response addressed to that endpoint.
pub open spec fn spec_resolve_response_sink(
    sink: ServiceInvocationResponseSink,
    id: ServiceInvocationId,
    result: ResponseResult,
) -> OutboxMessage {
    match sink {
        ServiceInvocationResponseSink::PartitionProcessor { caller, entry_index } =>
            OutboxMessage::ServiceResponse(
            InvocationResponse { id: caller, entry_index, result },
        ),
        ServiceInvocationResponseSink::Ingress(ingress_id) => OutboxMessage::IngressResponse {
            ingress_id,
            service_invocation_id: id,
            response: result,
        },
    }
}

/// Map a stored response sink to the outbox message that delivers `result`
/// of invocation `id` to it.
pub fn resolve_response_sink(
    sink: ServiceInvocationResponseSink,
    id: ServiceInvocationId,
    result: ResponseResult,
) -> (r: OutboxMessage)
    ensures
        r == spec_resolve_response_sink(sink, id, result),
{
    match sink {
        ServiceInvocationResponseSink::PartitionProcessor { caller, entry_index } =>
            OutboxMessage::ServiceResponse(
            InvocationResponse { id: caller, entry_index, result },
        ),
        ServiceInvocationResponseSink::Ingress(ingress_id) => OutboxMessage::IngressResponse {
            ingress_id,
            service_invocation_id: id,
            response: result,
        },
    }
}

/// Mathematical model of an [`Outbox`]: the undelivered messages in order,
/// and the message index of the head. The message at position `i` carries
/// index `head_sequence_number + i`; the next enqueued message receives
/// index `head_sequence_number + entries.len()`.
pub struct OutboxView {
    pub entries: Seq<OutboxMessage>,
    pub head_sequence_number: MessageIndex,
}

impl OutboxView {
    pub open spec fn wf(self) -> bool {
        self.head_sequence_number + self.entries.len() <= MessageIndex::MAX
    }

    /// The index the next enqueued message will carry.
    pub open spec fn next_sequence_number(self) -> int {
        self.head_sequence_number + self.entries.len()
    }

    pub open spec fn enqueue(self, message: OutboxMessage) -> OutboxView {
        OutboxView {
            entries: self.entries.push(message),
            head_sequence_number: self.head_sequence_number,
        }
    }

    /// The outbox after acknowledging delivery of the message with `index`:
    /// only an acknowledgment for the head removes it; anything else — a
    /// replayed acknowledgment for an index already removed, or one ahead
    /// of the head — changes nothing.
    pub open spec fn acknowledge(self, index: MessageIndex) -> OutboxView {
        if self.entries.len() > 0 && index == self.head_sequence_number {
            OutboxView {
                entries: self.entries.remove(0),
                head_sequence_number: (self.head_sequence_number + 1) as MessageIndex,
            }
        } else {
            self
        }
    }
}

/// The durable outbox of one partition. Every message that must leave the
/// partition is enqueued here before the triggering state transition is
/// considered complete; on restart, any unacknowledged message is retried,
/// which makes delivery at-least-once.
#[derive(Debug)]
pub struct Outbox {
    entries: Vec<OutboxMessage>,
    head_sequence_number: MessageIndex,
}

impl View for Outbox {
    type V = OutboxView;

    closed spec fn view(&self) -> OutboxView {
        OutboxView { entries: self.entries@, head_sequence_number: self.head_sequence_number }
    }
}

impl Outbox {
    pub fn new() -> (r: Self)
        ensures
            r@.entries == Seq::<OutboxMessage>::empty(),
            r@.head_sequence_number == 0u64,
            r@.wf(),
    {
        Outbox { entries: Vec::new(), head_sequence_number: 0 }
    }

    pub fn len(&self) -> (n: usize)
        ensures
            n == self@.entries.len(),
    {
        self.entries.len()
    }

    /// Append `message`; it receives the next message index, which is
    /// returned. Per-destination order follows the queue order.
    pub fn enqueue(&mut self, message: OutboxMessage) -> (index: MessageIndex)
        requires
            old(self)@.wf(),
            old(self)@.next_sequence_number() < MessageIndex::MAX,
        ensures
            final(self)@ == old(self)@.enqueue(message),
            final(self)@.wf(),
            index == old(self)@.next_sequence_number(),
    {
        let index = self.head_sequence_number + (self.entries.len() as u64);
        self.entries.push(message);
        index
    }

    /// The oldest undelivered message and its index, if any: what a sender
    /// transmits (and retransmits) next.
    pub fn next_to_send(&self) -> (r: Option<(MessageIndex, &OutboxMessage)>)
        ensures
            match r {
                Some(p) => self@.entries.len() > 0 && p.0 == self@.head_sequence_number && *p.1
                    == self@.entries[0],
                None => self@.entries.len() == 0,
            },
    {
        if self.entries.is_empty() {
            None
        } else {
            Some((self.head_sequence_number, &self.entries[0]))
        }
    }

    /// Record that the message with `index` was delivered. Returns whether
    /// a message was removed; a replayed or out-of-order acknowledgment is
    /// a no-op.
    pub fn acknowledge(&mut self, index: MessageIndex) -> (acked: bool)
        requires
            old(self)@.wf(),
        ensures
            final(self)@ == old(self)@.acknowledge(index),
            final(self)@.wf(),
            acked == (old(self)@.entries.len() > 0 && index == old(
                self,
            )@.head_sequence_number),
    {
        if !self.entries.is_empty() && index == self.head_sequence_number {
            self.entries.remove(0);
            self.head_sequence_number = self.head_sequence_number + 1;
            true
        } else {
            false
        }
    }
}

} // verus!
