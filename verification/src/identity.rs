//! Identity and partitioning: stable identifiers for keyed service instances
//! and the deterministic partition key derived from an instance's key bytes.

use vstd::prelude::*;

verus! {

/// Identifying a member of a replication group.
pub type PeerId = u64;

/// Identifying the leader epoch of a replication group leader.
pub type LeaderEpoch = u64;

/// Identifying the partition.
pub type PartitionId = u64;

/// The leader epoch of a given partition.
pub type PartitionLeaderEpoch = (PartitionId, LeaderEpoch);

/// Index of an entry in a journal, assigned in append order (0-based).
pub type EntryIndex = u32;

/// Identifying to which partition a key belongs. This is unlike [`PartitionId`],
/// which identifies a consecutive range of partition keys.
pub type PartitionKey = u64;

/// Discriminator for invocation instances: a 128-bit globally unique value.
pub type InvocationId = u128;

/// Index type used for messages in the runtime.
pub type MessageIndex = u64;

/// Offset basis of the 64-bit FNV-1a hash.
pub const FNV_OFFSET_BASIS: u64 = 0xcbf2_9ce4_8422_2325;

/// Prime of the 64-bit FNV-1a hash.
pub const FNV_PRIME: u64 = 0x0000_0100_0000_01b3;

/// The partition key of a byte sequence: 64-bit FNV-1a over the bytes.
/// This function is pure; identical bytes always yield the same key, on
/// every node and across restarts. The algorithm must never change without
/// a repartitioning migration.
pub open spec fn spec_partition_key(bytes: Seq<u8>) -> PartitionKey
    decreases bytes.len(),
{
    if bytes.len() == 0 {
        FNV_OFFSET_BASIS
    } else {
        vstd::wrapping::u64_specs::wrapping_mul(
            spec_partition_key(bytes.drop_last()) ^ (bytes.last() as u64),
            FNV_PRIME,
        )
    }
}

/// Computes the partition key for a given byte sequence.
pub struct HashPartitioner;

impl HashPartitioner {
    /// Derives the partition key of `value`, exactly [`spec_partition_key`].
    pub fn compute_partition_key(value: &[u8]) -> (key: PartitionKey)
        ensures
            key == spec_partition_key(value@),
    {
        let mut hash: u64 = FNV_OFFSET_BASIS;
        let mut i: usize = 0;
        while i < value.len()
            invariant
                i <= value@.len(),
                hash == spec_partition_key(value@.take(i as int)),
            decreases value@.len() - i,
        {
            let byte = value[i];
            hash = (hash ^ (byte as u64)).wrapping_mul(FNV_PRIME);
            i = i + 1;
            proof {
                assert(value@.take(i as int).drop_last() =~= value@.take(i - 1));
                assert(value@.take(i as int).last() == value@[i - 1]);
            }
        }
        proof {
            assert(value@.take(value@.len() as int) =~= value@);
        }
        hash
    }
}

/// Repeated derivations from equal key bytes always return the same
/// partition key: the partition key is a pure function of the bytes alone.
pub proof fn lemma_partition_key_deterministic(a: Seq<u8>, b: Seq<u8>)
    requires
        a == b,
    ensures
        spec_partition_key(a) == spec_partition_key(b),
{
}

/// Id of a keyed service instance.
///
/// Services are isolated by key: there cannot be two concurrent invocations
/// for the same `(service_name, key)` pair.
#[derive(Eq, Hash, PartialEq, PartialOrd, Ord, Clone, Debug)]
pub struct ServiceId {
    /// Identifies the service.
    pub service_name: String,
    /// Identifies the service instance for the given service name.
    pub key: Vec<u8>,
}

impl ServiceId {
    /// A service id is well-formed when its service name is not empty.
    pub open spec fn wf(&self) -> bool {
        self.service_name@.len() > 0
    }

    pub fn new(service_name: String, key: Vec<u8>) -> (r: Self)
        requires
            service_name@.len() > 0,
        ensures
            r.service_name == service_name,
            r.key == key,
            r.wf(),
    {
        Self { service_name, key }
    }

    /// The partition key this instance routes to, derived from the key bytes.
    pub fn partition_key(&self) -> (key: PartitionKey)
        ensures
            key == spec_partition_key(self.key@),
    {
        HashPartitioner::compute_partition_key(self.key.as_slice())
    }
}

/// Id of a single service invocation: a [`ServiceId`] plus an
/// [`InvocationId`] that makes the id globally unique.
#[derive(Eq, Hash, PartialEq, Clone, Debug)]
pub struct ServiceInvocationId {
    /// Identifies the invoked service instance.
    pub service_id: ServiceId,
    /// Uniquely identifies this invocation instance.
    pub invocation_id: InvocationId,
}

impl ServiceInvocationId {
    pub fn new(service_name: String, key: Vec<u8>, invocation_id: InvocationId) -> (r: Self)
        requires
            service_name@.len() > 0,
        ensures
            r.service_id.service_name == service_name,
            r.service_id.key == key,
            r.invocation_id == invocation_id,
            r.service_id.wf(),
    {
        Self { service_id: ServiceId::new(service_name, key), invocation_id }
    }
}

/// Lexicographic "less than or equal" on byte sequences.
pub open spec fn lex_le_bytes(a: Seq<u8>, b: Seq<u8>) -> bool
    decreases a.len(),
{
    if a.len() == 0 {
        true
    } else if b.len() == 0 {
        false
    } else if a[0] != b[0] {
        a[0] < b[0]
    } else {
        lex_le_bytes(a.drop_first(), b.drop_first())
    }
}

/// Lexicographic "less than or equal" on character sequences, ordered by
/// unicode code point.
pub open spec fn lex_le_chars(a: Seq<char>, b: Seq<char>) -> bool
    decreases a.len(),
{
    if a.len() == 0 {
        true
    } else if b.len() == 0 {
        false
    } else if a[0] != b[0] {
        (a[0] as u32) < (b[0] as u32)
    } else {
        lex_le_chars(a.drop_first(), b.drop_first())
    }
}

/// The order on service ids: lexicographic on the service name, then on
/// the key bytes. The storage layer iterates instances in this order; the
/// lemmas below show it is a total order, so the iteration order is
/// unambiguous and stable.
pub open spec fn service_id_le(a: ServiceId, b: ServiceId) -> bool {
    if a.service_name@ == b.service_name@ {
        lex_le_bytes(a.key@, b.key@)
    } else {
        lex_le_chars(a.service_name@, b.service_name@)
    }
}

pub proof fn lemma_lex_le_bytes_total(a: Seq<u8>, b: Seq<u8>)
    ensures
        lex_le_bytes(a, b) || lex_le_bytes(b, a),
    decreases a.len(),
{
    if a.len() > 0 && b.len() > 0 && a[0] == b[0] {
        lemma_lex_le_bytes_total(a.drop_first(), b.drop_first());
    }
}

pub proof fn lemma_lex_le_bytes_antisymmetric(a: Seq<u8>, b: Seq<u8>)
    requires
        lex_le_bytes(a, b),
        lex_le_bytes(b, a),
    ensures
        a == b,
    decreases a.len(),
{
    if a.len() == 0 {
        assert(b.len() == 0);
        assert(a =~= b);
    } else {
        assert(a[0] == b[0]);
        lemma_lex_le_bytes_antisymmetric(a.drop_first(), b.drop_first());
        assert(a.drop_first().len() == b.drop_first().len());
        assert(a.len() == b.len());
        assert forall|i: int| 0 <= i < a.len() implies a[i] == b[i] by {
            if i > 0 {
                assert(a[i] == a.drop_first()[i - 1]);
                assert(b[i] == b.drop_first()[i - 1]);
            }
        }
        assert(a =~= b);
    }
}

pub proof fn lemma_lex_le_bytes_transitive(a: Seq<u8>, b: Seq<u8>, c: Seq<u8>)
    requires
        lex_le_bytes(a, b),
        lex_le_bytes(b, c),
    ensures
        lex_le_bytes(a, c),
    decreases a.len(),
{
    if a.len() > 0 {
        assert(b.len() > 0);
        assert(c.len() > 0);
        if a[0] == b[0] && b[0] == c[0] {
            lemma_lex_le_bytes_transitive(a.drop_first(), b.drop_first(), c.drop_first());
        }
    }
}

pub proof fn lemma_lex_le_chars_total(a: Seq<char>, b: Seq<char>)
    ensures
        lex_le_chars(a, b) || lex_le_chars(b, a),
    decreases a.len(),
{
    if a.len() > 0 && b.len() > 0 {
        if a[0] == b[0] {
            lemma_lex_le_chars_total(a.drop_first(), b.drop_first());
        } else {
            vstd::utf8::char_u32_cast(a[0], a[0] as u32);
            vstd::utf8::char_u32_cast(b[0], b[0] as u32);
            assert((a[0] as u32) != (b[0] as u32));
        }
    }
}

pub proof fn lemma_lex_le_chars_antisymmetric(a: Seq<char>, b: Seq<char>)
    requires
        lex_le_chars(a, b),
        lex_le_chars(b, a),
    ensures
        a == b,
    decreases a.len(),
{
    if a.len() == 0 {
        assert(b.len() == 0);
        assert(a =~= b);
    } else {
        assert(a[0] == b[0]);
        lemma_lex_le_chars_antisymmetric(a.drop_first(), b.drop_first());
        assert(a.drop_first().len() == b.drop_first().len());
        assert(a.len() == b.len());
        assert forall|i: int| 0 <= i < a.len() implies a[i] == b[i] by {
            if i > 0 {
                assert(a[i] == a.drop_first()[i - 1]);
                assert(b[i] == b.drop_first()[i - 1]);
            }
        }
        assert(a =~= b);
    }
}

pub proof fn lemma_lex_le_chars_transitive(a: Seq<char>, b: Seq<char>, c: Seq<char>)
    requires
        lex_le_chars(a, b),
        lex_le_chars(b, c),
    ensures
        lex_le_chars(a, c),
    decreases a.len(),
{
    if a.len() > 0 {
        assert(b.len() > 0);
        assert(c.len() > 0);
        if a[0] == b[0] && b[0] == c[0] {
            lemma_lex_le_chars_transitive(a.drop_first(), b.drop_first(), c.drop_first());
        }
    }
}

/// The order on service ids is total: any two ids are comparable.
pub proof fn lemma_service_id_order_total(a: ServiceId, b: ServiceId)
    ensures
        service_id_le(a, b) || service_id_le(b, a),
{
    if a.service_name@ == b.service_name@ {
        lemma_lex_le_bytes_total(a.key@, b.key@);
    } else {
        lemma_lex_le_chars_total(a.service_name@, b.service_name@);
    }
}

/// The order on service ids is antisymmetric: ids ordered both ways carry
/// the same name and the same key.
pub proof fn lemma_service_id_order_antisymmetric(a: ServiceId, b: ServiceId)
    requires
        service_id_le(a, b),
        service_id_le(b, a),
    ensures
        a.service_name@ == b.service_name@,
        a.key@ == b.key@,
{
    if a.service_name@ == b.service_name@ {
        lemma_lex_le_bytes_antisymmetric(a.key@, b.key@);
    } else {
        lemma_lex_le_chars_antisymmetric(a.service_name@, b.service_name@);
    }
}

/// The order on service ids is transitive.
pub proof fn lemma_service_id_order_transitive(a: ServiceId, b: ServiceId, c: ServiceId)
    requires
        service_id_le(a, b),
        service_id_le(b, c),
    ensures
        service_id_le(a, c),
{
    if a.service_name@ == b.service_name@ && b.service_name@ == c.service_name@ {
        lemma_lex_le_bytes_transitive(a.key@, b.key@, c.key@);
    } else if a.service_name@ == b.service_name@ {
    } else if b.service_name@ == c.service_name@ {
    } else {
        if a.service_name@ == c.service_name@ {
            lemma_lex_le_chars_antisymmetric(a.service_name@, b.service_name@);
        } else {
            lemma_lex_le_chars_transitive(a.service_name@, b.service_name@, c.service_name@);
        }
    }
}

} // verus!
