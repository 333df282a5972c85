//! The partition key is a pure, stable function of the key bytes.

use restate_common::{HashPartitioner, ServiceId};

#[test]
fn partition_key_known_vectors() {
    // 64-bit FNV-1a reference vectors.
    assert_eq!(HashPartitioner::compute_partition_key(b""), 0xcbf29ce484222325);
    assert_eq!(HashPartitioner::compute_partition_key(b"a"), 0xaf63dc4c8601ec8c);
    assert_eq!(HashPartitioner::compute_partition_key(b"foobar"), 0x85944171f73967e8);
    assert_eq!(HashPartitioner::compute_partition_key(b"user-42"), 0x32c6d7a54d35dacb);
}

#[test]
fn partition_key_is_deterministic() {
    let key = b"user-42".to_vec();
    let first = HashPartitioner::compute_partition_key(&key);
    let second = HashPartitioner::compute_partition_key(&key);
    assert_eq!(first, second);
    let copy = key.clone();
    assert_eq!(HashPartitioner::compute_partition_key(&copy), first);
}

#[test]
fn service_id_partition_key_hashes_the_key_bytes() {
    let id = ServiceId::new("cart".to_string(), b"user-42".to_vec());
    assert_eq!(id.partition_key(), 0x32c6d7a54d35dacb);
    let other_service_same_key = ServiceId::new("orders".to_string(), b"user-42".to_vec());
    // The partition key depends on the key bytes alone.
    assert_eq!(other_service_same_key.partition_key(), id.partition_key());
}

#[test]
fn service_invocation_id_new_builds_both_parts() {
    let id = restate_common::ServiceInvocationId::new(
        "cart".to_string(),
        b"user-42".to_vec(),
        7u128,
    );
    assert_eq!(id.service_id.service_name, "cart");
    assert_eq!(id.service_id.key, b"user-42".to_vec());
    assert_eq!(id.invocation_id, 7u128);
}
