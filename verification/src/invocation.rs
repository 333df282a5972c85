//! Service invocations and the sinks their results are delivered to.

use vstd::prelude::*;

use crate::identity::{EntryIndex, ServiceInvocationId};
use crate::span::ServiceInvocationSpanContext;

verus! {

/// A request to run a service instance, in flight. Immutable after creation;
/// only one invocation may be active per service instance at a time.
#[derive(Debug, Clone, PartialEq)]
pub struct ServiceInvocation {
    pub id: ServiceInvocationId,
    pub method_name: String,
    pub argument: Vec<u8>,
    pub response_sink: Option<ServiceInvocationResponseSink>,
    pub span_context: ServiceInvocationSpanContext,
}

impl ServiceInvocation {
    /// Create a new [`ServiceInvocation`].
    ///
    /// The tracing span of the invocation is opened by the embedding
    /// runtime, which hands the recorded context in here; the core only
    /// threads the context through.
    pub fn new(
        id: ServiceInvocationId,
        method_name: String,
        argument: Vec<u8>,
        response_sink: Option<ServiceInvocationResponseSink>,
        span_context: ServiceInvocationSpanContext,
    ) -> (r: Self)
        ensures
            r == (ServiceInvocation { id, method_name, argument, response_sink, span_context }),
    {
        Self { id, method_name, argument, response_sink, span_context }
    }
}

/// The result carried by a response message, either back to a calling
/// invocation or out to an ingress client.
#[derive(Debug, Clone, PartialEq)]
pub enum ResponseResult {
    Success(Vec<u8>),
    Failure(i32, String),
}

/// A response for a caller invocation, addressed by the caller's id and the
/// journal index of its invoke entry.
#[derive(Debug, Clone, PartialEq)]
pub struct InvocationResponse {
    pub id: ServiceInvocationId,
    pub entry_index: EntryIndex,
    pub result: ResponseResult,
}

/// Identifies an ingress endpoint. The address is an opaque routing token:
/// the core never interprets its contents.
#[derive(Debug, PartialEq, Eq, Clone, Hash)]
pub struct IngressId(pub String);

/// Definition of the sink where to send the result of a service invocation.
/// Chosen at invocation creation; immutable afterwards.
#[derive(Debug, PartialEq, Clone)]
pub enum ServiceInvocationResponseSink {
    /// The invocation was created by a partition processor and a caller
    /// invocation is expecting a response at the given entry index.
    PartitionProcessor { caller: ServiceInvocationId, entry_index: EntryIndex },
    /// The invocation was created by a request received at an ingress, and
    /// the client is expecting a response back.
    Ingress(IngressId),
}

} // verus!
