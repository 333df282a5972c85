//! Lifecycle scenarios of the invocation state machine.

use restate_common::{
    CompletionOutcome, CompletionResult, EnrichedEntryHeader, EnrichedRawEntry, IngressId,
    InstanceState, InvocationOutcome, InvocationStatus, MillisSinceEpoch, Outbox, OutboxMessage,
    PartitionOwnership, RawEntry, ResponseResult, ServiceId, ServiceInvocation,
    ServiceInvocationId, ServiceInvocationResponseSink, ServiceInvocationSpanContext, StateError,
    SuspendOutcome, TimerKey,
};

fn full_ownership() -> PartitionOwnership {
    PartitionOwnership { partition_id: 0, range_start: 0, range_end: u64::MAX }
}

fn cart_user_42(invocation_id: u128) -> ServiceInvocationId {
    ServiceInvocationId::new("cart".to_string(), b"user-42".to_vec(), invocation_id)
}

fn invocation(
    invocation_id: u128,
    response_sink: Option<ServiceInvocationResponseSink>,
) -> ServiceInvocation {
    ServiceInvocation::new(
        cart_user_42(invocation_id),
        "checkout".to_string(),
        b"order-bytes".to_vec(),
        response_sink,
        ServiceInvocationSpanContext::empty(),
    )
}

fn ingress_sink() -> ServiceInvocationResponseSink {
    ServiceInvocationResponseSink::Ingress(IngressId("127.0.0.1:9090".to_string()))
}

fn sleep_entry() -> EnrichedRawEntry {
    RawEntry::new(EnrichedEntryHeader::Sleep { is_completed: false }, b"sleep".to_vec())
}

fn output_entry() -> EnrichedRawEntry {
    RawEntry::new(EnrichedEntryHeader::OutputStream, b"output".to_vec())
}

#[test]
fn scenario_sleep_timer_terminal() {
    // Free -> Invoked.
    let mut state = InstanceState::new();
    let mut outbox = Outbox::new();
    let ownership = full_ownership();
    let outcome = state.on_invocation(&ownership, invocation(1, Some(ingress_sink()))).unwrap();
    assert!(matches!(outcome, InvocationOutcome::Started { .. }));
    assert!(matches!(state.status(), InvocationStatus::Invoked(_)));

    // A sleep entry is appended at index 0 and awaited: Invoked -> Suspended.
    let idx = state.append_entry(sleep_entry()).unwrap();
    assert_eq!(idx, 0);
    let suspended = state.suspend(&vec![0]).unwrap();
    assert!(matches!(suspended, SuspendOutcome::Suspended));
    match state.status() {
        InvocationStatus::Suspended(s) => {
            assert!(s.waiting_for_completed_entries.contains(&0));
            assert_eq!(s.waiting_for_completed_entries.len(), 1);
        }
        other => panic!("expected suspension, found {:?}", other),
    }

    // The timer fires: an empty completion for index 0 resumes the invocation.
    let timer = TimerKey::new(cart_user_42(1), 0, MillisSinceEpoch::new(1_000));
    let fired = state.fire_timer(&timer).unwrap();
    assert!(matches!(fired, CompletionOutcome::Resumed));
    assert!(matches!(state.status(), InvocationStatus::Invoked(_)));

    // A terminal entry ends the invocation: Invoked -> Free, and the
    // response message sits in the outbox, addressed to the recorded sink.
    state.append_entry(output_entry()).unwrap();
    let end = state
        .end_invocation(
            ServiceId::new("cart".to_string(), b"user-42".to_vec()),
            ResponseResult::Success(b"done".to_vec()),
            &mut outbox,
        )
        .unwrap();
    assert_eq!(end.response_message_index, Some(0));
    assert!(end.next.is_none());
    assert!(matches!(state.status(), InvocationStatus::Free));
    let (index, message) = outbox.next_to_send().unwrap();
    assert_eq!(index, 0);
    assert_eq!(
        *message,
        OutboxMessage::IngressResponse {
            ingress_id: IngressId("127.0.0.1:9090".to_string()),
            service_invocation_id: cart_user_42(1),
            response: ResponseResult::Success(b"done".to_vec()),
        }
    );
}

#[test]
fn scenario_second_invocation_queues() {
    let mut state = InstanceState::new();
    let ownership = full_ownership();
    state.on_invocation(&ownership, invocation(1, None)).unwrap();

    // A second invocation for the same instance arrives while Invoked: it
    // is queued under the next sequence number and the status is untouched.
    let outcome = state.on_invocation(&ownership, invocation(2, None)).unwrap();
    assert!(matches!(outcome, InvocationOutcome::Enqueued { sequence_number: 0 }));
    match state.status() {
        InvocationStatus::Invoked(s) => assert_eq!(s.invocation_id, 1),
        other => panic!("expected the first invocation to stay active, found {:?}", other),
    }
    assert_eq!(state.inbox_length(), 1);

    let third = state.on_invocation(&ownership, invocation(3, None)).unwrap();
    assert!(matches!(third, InvocationOutcome::Enqueued { sequence_number: 1 }));
}

#[test]
fn scenario_completion_for_non_awaited_index_is_ignored() {
    let mut state = InstanceState::new();
    let ownership = full_ownership();
    state.on_invocation(&ownership, invocation(1, None)).unwrap();
    for _ in 0..3 {
        state.append_entry(sleep_entry()).unwrap();
    }
    state.suspend(&vec![1, 2]).unwrap();

    // A completion for entry index 3 arrives while the waiting set is
    // {1, 2}: it references a non-awaited index and changes nothing.
    let outcome = state.on_completion(1, 3, CompletionResult::Empty).unwrap();
    assert!(matches!(outcome, CompletionOutcome::Ignored));
    match state.status() {
        InvocationStatus::Suspended(s) => {
            assert!(s.waiting_for_completed_entries.contains(&1));
            assert!(s.waiting_for_completed_entries.contains(&2));
            assert_eq!(s.waiting_for_completed_entries.len(), 2);
        }
        other => panic!("expected the suspension to stand, found {:?}", other),
    }
}

#[test]
fn completion_applied_twice_is_applied_once() {
    let mut state = InstanceState::new();
    let ownership = full_ownership();
    state.on_invocation(&ownership, invocation(1, None)).unwrap();
    state.append_entry(sleep_entry()).unwrap();
    state.append_entry(sleep_entry()).unwrap();
    state.suspend(&vec![0, 1]).unwrap();

    let first = state.on_completion(1, 0, CompletionResult::Empty).unwrap();
    assert!(matches!(first, CompletionOutcome::Applied));
    match state.status() {
        InvocationStatus::Suspended(s) => {
            assert!(!s.waiting_for_completed_entries.contains(&0));
            assert!(s.waiting_for_completed_entries.contains(&1));
        }
        other => panic!("expected one entry still awaited, found {:?}", other),
    }

    // The duplicate delivery of the same completion is a no-op.
    let second = state.on_completion(1, 0, CompletionResult::Empty).unwrap();
    assert!(matches!(second, CompletionOutcome::Ignored));
    match state.status() {
        InvocationStatus::Suspended(s) => {
            assert!(!s.waiting_for_completed_entries.contains(&0));
            assert!(s.waiting_for_completed_entries.contains(&1));
        }
        other => panic!("expected the suspension to stand, found {:?}", other),
    }

    let third = state.on_completion(1, 1, CompletionResult::Empty).unwrap();
    assert!(matches!(third, CompletionOutcome::Resumed));
    assert!(matches!(state.status(), InvocationStatus::Invoked(_)));
}

#[test]
fn round_trip_matches_synchronous_completion() {
    let ownership = full_ownership();
    let service_id = || ServiceId::new("cart".to_string(), b"user-42".to_vec());
    let result = || ResponseResult::Success(b"done".to_vec());

    // Path one: the entry completes synchronously.
    let mut sync_state = InstanceState::new();
    let mut sync_outbox = Outbox::new();
    sync_state.on_invocation(&ownership, invocation(1, Some(ingress_sink()))).unwrap();
    sync_state
        .append_entry(RawEntry::new(
            EnrichedEntryHeader::Sleep { is_completed: true },
            b"sleep".to_vec(),
        ))
        .unwrap();
    let sync_end = sync_state.end_invocation(service_id(), result(), &mut sync_outbox).unwrap();

    // Path two: the entry is awaited and completed out-of-band.
    let mut state = InstanceState::new();
    let mut outbox = Outbox::new();
    state.on_invocation(&ownership, invocation(1, Some(ingress_sink()))).unwrap();
    state.append_entry(sleep_entry()).unwrap();
    state.suspend(&vec![0]).unwrap();
    let resumed = state.on_completion(1, 0, CompletionResult::Empty).unwrap();
    assert!(matches!(resumed, CompletionOutcome::Resumed));
    let end = state.end_invocation(service_id(), result(), &mut outbox).unwrap();

    // Both paths reach the same terminal outcome.
    assert_eq!(end, sync_end);
    assert_eq!(outbox.next_to_send().unwrap(), sync_outbox.next_to_send().unwrap());
    assert!(matches!(state.status(), InvocationStatus::Free));
    assert!(matches!(sync_state.status(), InvocationStatus::Free));
}

#[test]
fn ending_starts_the_next_queued_invocation_in_order() {
    let mut state = InstanceState::new();
    let mut outbox = Outbox::new();
    let ownership = full_ownership();
    state.on_invocation(&ownership, invocation(1, None)).unwrap();
    state.on_invocation(&ownership, invocation(2, None)).unwrap();
    state.on_invocation(&ownership, invocation(3, None)).unwrap();

    let service_id = || ServiceId::new("cart".to_string(), b"user-42".to_vec());
    let end = state
        .end_invocation(service_id(), ResponseResult::Success(vec![]), &mut outbox)
        .unwrap();
    // No sink was recorded, so no message leaves; the next invocation in
    // sequence-number order starts immediately.
    assert_eq!(end.response_message_index, None);
    assert_eq!(end.next.unwrap().invocation_id, 2);
    match state.status() {
        InvocationStatus::Invoked(s) => assert_eq!(s.invocation_id, 2),
        other => panic!("expected the queued invocation to start, found {:?}", other),
    }

    let end = state
        .end_invocation(service_id(), ResponseResult::Success(vec![]), &mut outbox)
        .unwrap();
    assert_eq!(end.next.unwrap().invocation_id, 3);

    let end = state
        .end_invocation(service_id(), ResponseResult::Success(vec![]), &mut outbox)
        .unwrap();
    assert!(end.next.is_none());
    assert!(matches!(state.status(), InvocationStatus::Free));
}

#[test]
fn foreign_partition_key_is_rejected() {
    let mut state = InstanceState::new();
    // "user-42" hashes to 0x32c6d7a54d35dacb; own a range that excludes it.
    let ownership = PartitionOwnership { partition_id: 7, range_start: 0, range_end: 42 };
    let rejected = state.on_invocation(&ownership, invocation(1, None));
    assert_eq!(rejected, Err(StateError::PartitionKeyMismatch));
    assert!(matches!(state.status(), InvocationStatus::Free));
}

#[test]
fn completion_for_unknown_invocation_is_reported() {
    let mut state = InstanceState::new();
    // A free instance knows no invocation.
    let dropped = state.on_completion(9, 0, CompletionResult::Empty);
    assert_eq!(dropped, Err(StateError::UnknownInvocation));

    let ownership = full_ownership();
    state.on_invocation(&ownership, invocation(1, None)).unwrap();
    state.append_entry(sleep_entry()).unwrap();
    state.suspend(&vec![0]).unwrap();
    // A foreign invocation id is unknown, and the suspension stands.
    let dropped = state.on_completion(9, 0, CompletionResult::Empty);
    assert_eq!(dropped, Err(StateError::UnknownInvocation));
    assert!(matches!(state.status(), InvocationStatus::Suspended(_)));
}

#[test]
fn invalid_transitions_are_rejected_without_mutation() {
    let mut state = InstanceState::new();
    let mut outbox = Outbox::new();
    let service_id = || ServiceId::new("cart".to_string(), b"user-42".to_vec());

    // Nothing runs: there is nothing to append to, suspend or end.
    assert_eq!(state.append_entry(sleep_entry()), Err(StateError::InvalidStatusTransition));
    assert_eq!(state.suspend(&vec![0]), Err(StateError::InvalidStatusTransition));
    assert_eq!(
        state.end_invocation(service_id(), ResponseResult::Success(vec![]), &mut outbox),
        Err(StateError::InvalidStatusTransition)
    );

    let ownership = full_ownership();
    state.on_invocation(&ownership, invocation(1, None)).unwrap();
    // An empty awaited list and an index without a completable entry are
    // caller errors.
    assert_eq!(state.suspend(&vec![]), Err(StateError::InvalidStatusTransition));
    assert_eq!(state.suspend(&vec![0]), Err(StateError::InvalidStatusTransition));
    state.append_entry(output_entry()).unwrap();
    // An output entry cannot receive a completion.
    assert_eq!(state.suspend(&vec![0]), Err(StateError::InvalidStatusTransition));

    // A suspended invocation cannot append or end.
    state.append_entry(sleep_entry()).unwrap();
    state.suspend(&vec![1]).unwrap();
    assert_eq!(state.append_entry(sleep_entry()), Err(StateError::InvalidStatusTransition));
    assert_eq!(
        state.end_invocation(service_id(), ResponseResult::Success(vec![]), &mut outbox),
        Err(StateError::InvalidStatusTransition)
    );
    assert_eq!(outbox.len(), 0);
}

#[test]
fn suspension_on_completed_entries_stays_runnable() {
    let mut state = InstanceState::new();
    let ownership = full_ownership();
    state.on_invocation(&ownership, invocation(1, None)).unwrap();
    state
        .append_entry(RawEntry::new(
            EnrichedEntryHeader::Sleep { is_completed: true },
            b"sleep".to_vec(),
        ))
        .unwrap();
    // The only awaited entry already completed: no suspension is recorded.
    let outcome = state.suspend(&vec![0]).unwrap();
    assert!(matches!(outcome, SuspendOutcome::AlreadyCompleted));
    assert!(matches!(state.status(), InvocationStatus::Invoked(_)));
}

#[test]
fn callee_response_resumes_the_suspended_caller() {
    let ownership = full_ownership();

    // The caller appends an invoke entry and suspends awaiting it.
    let mut caller = InstanceState::new();
    let caller_id = ServiceInvocationId::new("checkout".to_string(), b"cart-9".to_vec(), 10);
    caller
        .on_invocation(
            &ownership,
            ServiceInvocation::new(
                caller_id.clone(),
                "pay".to_string(),
                b"arg".to_vec(),
                None,
                ServiceInvocationSpanContext::empty(),
            ),
        )
        .unwrap();
    let invoke_index = caller
        .append_entry(RawEntry::new(
            EnrichedEntryHeader::Invoke { is_completed: false, resolution_result: None },
            b"call".to_vec(),
        ))
        .unwrap();
    caller.suspend(&vec![invoke_index]).unwrap();

    // The callee runs with a partition-processor sink pointing back at the
    // caller's invoke entry, and ends.
    let mut callee = InstanceState::new();
    let mut outbox = Outbox::new();
    let sink = ServiceInvocationResponseSink::PartitionProcessor {
        caller: caller_id,
        entry_index: invoke_index,
    };
    callee.on_invocation(&ownership, invocation(1, Some(sink))).unwrap();
    callee
        .end_invocation(
            ServiceId::new("cart".to_string(), b"user-42".to_vec()),
            ResponseResult::Success(b"paid".to_vec()),
            &mut outbox,
        )
        .unwrap();

    // The response message leaves through the outbox and, delivered as a
    // completion, resumes the caller exactly once.
    let (_, message) = outbox.next_to_send().unwrap();
    let response = match message {
        OutboxMessage::ServiceResponse(response) => response.clone(),
        other => panic!("expected a service response, found {:?}", other),
    };
    assert_eq!(response.entry_index, invoke_index);
    let outcome = caller
        .on_completion(
            response.id.invocation_id,
            response.entry_index,
            CompletionResult::from(response.result.clone()),
        )
        .unwrap();
    assert!(matches!(outcome, CompletionOutcome::Resumed));
    let duplicate = caller
        .on_completion(
            response.id.invocation_id,
            response.entry_index,
            CompletionResult::from(response.result),
        )
        .unwrap();
    assert!(matches!(duplicate, CompletionOutcome::Ignored));
}
