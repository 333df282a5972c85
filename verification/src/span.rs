//! Span and causality context: the distributed-tracing linkage carried
//! across invocation boundaries. The core never branches on its contents;
//! it only threads the context through for an external tracing exporter,
//! so the context is modelled as a plain token of identifiers.

use vstd::prelude::*;

verus! {

/// The tracing identifiers propagated with an invocation: a 128-bit trace
/// id, a 64-bit span id and the sampling decision. An all-zero context with
/// sampling off stands for "no context recorded".
#[derive(Debug, PartialEq, Eq, Clone, Copy, Hash)]
pub struct SpanContext {
    pub trace_id: u128,
    pub span_id: u64,
    pub is_sampled: bool,
}

impl SpanContext {
    pub fn new(trace_id: u128, span_id: u64, is_sampled: bool) -> (r: Self)
        ensures
            r == (SpanContext { trace_id, span_id, is_sampled }),
    {
        SpanContext { trace_id, span_id, is_sampled }
    }

    /// The empty context: no trace recorded.
    pub fn empty_context() -> (r: Self)
        ensures
            r == (SpanContext { trace_id: 0u128, span_id: 0u64, is_sampled: false }),
    {
        SpanContext { trace_id: 0, span_id: 0, is_sampled: false }
    }
}

/// The span information attached to a service invocation. It can be turned
/// into a relation for spans of invocations it causes, via
/// [`ServiceInvocationSpanContext::as_cause`] or
/// [`ServiceInvocationSpanContext::as_parent`].
#[derive(Debug, PartialEq, Eq, Clone, Copy, Hash)]
pub struct ServiceInvocationSpanContext(pub SpanContext);

impl ServiceInvocationSpanContext {
    pub fn new(span_context: SpanContext) -> (r: Self)
        ensures
            r == ServiceInvocationSpanContext(span_context),
    {
        ServiceInvocationSpanContext(span_context)
    }

    pub fn empty() -> (r: Self)
        ensures
            r.0 == (SpanContext { trace_id: 0u128, span_id: 0u64, is_sampled: false }),
    {
        ServiceInvocationSpanContext(SpanContext::empty_context())
    }

    /// Relate a new span to this invocation as its cause (a link).
    pub fn as_cause(&self) -> (r: SpanRelation)
        ensures
            r == SpanRelation::CausedBy(self.0),
    {
        SpanRelation::CausedBy(self.0)
    }

    /// Relate a new span to this invocation as its parent.
    pub fn as_parent(&self) -> (r: SpanRelation)
        ensures
            r == SpanRelation::Parent(self.0),
    {
        SpanRelation::Parent(self.0)
    }
}

/// Span relation, used to propagate tracing contexts to related spans.
#[derive(Debug, PartialEq, Eq, Clone, Copy)]
pub enum SpanRelation {
    /// The new span is not related to any recorded context.
    Unrelated,
    Parent(SpanContext),
    CausedBy(SpanContext),
}

} // verus!
