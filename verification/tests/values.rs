//! Plain value types: timestamps, spans, inbox entries and configuration.

use restate_common::{
    InboxEntry, LogFormat, MetadataStoreClient, MillisSinceEpoch, ServiceInvocation,
    ServiceInvocationId, ServiceInvocationSpanContext, SpanContext, SpanRelation, TimerKey,
};

#[test]
fn millis_since_epoch_round_trips() {
    let t = MillisSinceEpoch::new(1_234_567);
    assert_eq!(t.as_u64(), 1_234_567);
    let u: MillisSinceEpoch = 99u64.into();
    assert_eq!(u.as_u64(), 99);
    assert!(MillisSinceEpoch::new(1) < MillisSinceEpoch::new(2));
}

#[test]
fn span_context_relations() {
    let ctx = SpanContext::new(0xabcdef, 0x1234, true);
    let invocation_ctx = ServiceInvocationSpanContext::new(ctx);
    assert_eq!(invocation_ctx.as_parent(), SpanRelation::Parent(ctx));
    assert_eq!(invocation_ctx.as_cause(), SpanRelation::CausedBy(ctx));
    let empty = ServiceInvocationSpanContext::empty();
    assert_eq!(empty.0, SpanContext::new(0, 0, false));
}

#[test]
fn service_invocation_keeps_its_parts() {
    let id = ServiceInvocationId::new("cart".to_string(), b"user-42".to_vec(), 5);
    let inv = ServiceInvocation::new(
        id.clone(),
        "checkout".to_string(),
        b"arg".to_vec(),
        None,
        ServiceInvocationSpanContext::empty(),
    );
    assert_eq!(inv.id, id);
    assert_eq!(inv.method_name, "checkout");
    assert_eq!(inv.argument, b"arg".to_vec());
    assert!(inv.response_sink.is_none());

    let entry = InboxEntry::new(3, inv.clone());
    assert_eq!(entry.inbox_sequence_number, 3);
    assert_eq!(entry.service_invocation, inv);
}

#[test]
fn timer_key_records_the_wake_up() {
    let id = ServiceInvocationId::new("cart".to_string(), b"user-42".to_vec(), 5);
    let key = TimerKey::new(id.clone(), 2, MillisSinceEpoch::new(1_700_000));
    assert_eq!(key.service_invocation_id, id);
    assert_eq!(key.journal_index, 2);
    assert_eq!(key.timestamp, 1_700_000);
}

#[test]
fn log_format_defaults_to_pretty() {
    assert!(matches!(LogFormat::default(), LogFormat::Pretty));
}

#[test]
fn embedded_addresses_keep_an_explicit_list() {
    let merged = MetadataStoreClient::merge_embedded_addresses(
        None,
        vec!["http://a:5122/".to_string(), "http://b:5122/".to_string()],
    )
    .unwrap();
    assert_eq!(merged, vec!["http://a:5122/".to_string(), "http://b:5122/".to_string()]);
}

#[test]
fn embedded_legacy_address_replaces_the_default() {
    let merged = MetadataStoreClient::merge_embedded_addresses(
        Some("http://node-1:5122/".to_string()),
        vec!["http://127.0.0.1:5122/".to_string()],
    )
    .unwrap();
    assert_eq!(merged, vec!["http://node-1:5122/".to_string()]);
}

#[test]
fn embedded_legacy_address_conflicts_with_an_explicit_list() {
    let rejected = MetadataStoreClient::merge_embedded_addresses(
        Some("http://node-1:5122/".to_string()),
        vec!["http://a:5122/".to_string()],
    );
    assert!(rejected.is_err());
}

#[test]
fn inbox_is_first_in_first_out() {
    let mut inbox = restate_common::Inbox::new();
    let id = |n: u128| ServiceInvocationId::new("cart".to_string(), b"k".to_vec(), n);
    let inv = |n: u128| {
        ServiceInvocation::new(
            id(n),
            "m".to_string(),
            vec![],
            None,
            ServiceInvocationSpanContext::empty(),
        )
    };
    assert_eq!(inbox.enqueue(inv(1)), 0);
    assert_eq!(inbox.enqueue(inv(2)), 1);
    assert_eq!(inbox.enqueue(inv(3)), 2);

    let mut seen: Vec<(u64, u128)> = Vec::new();
    while let Some(entry) = inbox.dequeue() {
        seen.push((entry.inbox_sequence_number, entry.service_invocation.id.invocation_id));
    }
    assert_eq!(seen, vec![(0, 1), (1, 2), (2, 3)]);
    assert!(inbox.is_empty());
}
