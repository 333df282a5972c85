//! Journal records, completions and the response-sink resolver.

use restate_common::{
    resolve_response_sink, CompletionResult, EnrichedEntryHeader, IngressId, InvocationResponse,
    OutboxMessage, RawEntry, ResponseResult, ServiceInvocationId, ServiceInvocationResponseSink,
};

#[test]
fn raw_entry_round_trips_header_and_payload() {
    let entry = RawEntry::new(EnrichedEntryHeader::SetState, b"payload".to_vec());
    assert_eq!(entry.header, EnrichedEntryHeader::SetState);
    assert_eq!(entry.entry, b"payload".to_vec());
    let (header, payload) = entry.into_inner();
    assert_eq!(header, EnrichedEntryHeader::SetState);
    assert_eq!(payload, b"payload".to_vec());
}

#[test]
fn completion_result_from_response_result() {
    assert_eq!(
        CompletionResult::from(ResponseResult::Success(b"ok".to_vec())),
        CompletionResult::Success(b"ok".to_vec())
    );
    assert_eq!(
        CompletionResult::from(ResponseResult::Failure(13, "unavailable".to_string())),
        CompletionResult::Failure(13, "unavailable".to_string())
    );
}

#[test]
fn resolver_addresses_a_caller_invocation() {
    let caller = ServiceInvocationId::new("checkout".to_string(), b"cart-9".to_vec(), 11);
    let callee = ServiceInvocationId::new("cart".to_string(), b"user-42".to_vec(), 12);
    let message = resolve_response_sink(
        ServiceInvocationResponseSink::PartitionProcessor { caller: caller.clone(), entry_index: 4 },
        callee,
        ResponseResult::Success(b"total".to_vec()),
    );
    assert_eq!(
        message,
        OutboxMessage::ServiceResponse(InvocationResponse {
            id: caller,
            entry_index: 4,
            result: ResponseResult::Success(b"total".to_vec()),
        })
    );
}

#[test]
fn resolver_addresses_an_ingress_endpoint() {
    let callee = ServiceInvocationId::new("cart".to_string(), b"user-42".to_vec(), 12);
    let message = resolve_response_sink(
        ServiceInvocationResponseSink::Ingress(IngressId("10.0.0.1:8080".to_string())),
        callee.clone(),
        ResponseResult::Failure(3, "cancelled".to_string()),
    );
    assert_eq!(
        message,
        OutboxMessage::IngressResponse {
            ingress_id: IngressId("10.0.0.1:8080".to_string()),
            service_invocation_id: callee,
            response: ResponseResult::Failure(3, "cancelled".to_string()),
        }
    );
}
