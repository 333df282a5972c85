//! Journal model: the append-only, ordered sequence of effect records (and
//! their completions) belonging to one invocation.
//!
//! Append is the only mutation; each append assigns the next sequential
//! index. Applying a completion to an index converts a pending entry into a
//! completed one and is idempotent.

use vstd::prelude::*;

use crate::identity::{EntryIndex, InvocationId};
use crate::invocation::ResponseResult;
use crate::span::ServiceInvocationSpanContext;

verus! {

/// Result of resolving the callee of an invoke entry: the target service
/// instance and the invocation id generated for it, or a typed failure.
#[derive(Debug, Clone, PartialEq)]
pub enum ResolutionResult {
    Success {
        invocation_id: InvocationId,
        service_key: Vec<u8>,
        /// The span generated while resolving the callee.
        span_context: ServiceInvocationSpanContext,
    },
    Failure { error_code: i32, error: String },
}

/// Enriched variant of the journal entry headers, recording the semantic
/// kind of each entry and, for kinds that can be resolved out-of-band, a
/// completion flag or a [`ResolutionResult`].
#[derive(Debug, Clone, PartialEq)]
pub enum EnrichedEntryHeader {
    PollInputStream { is_completed: bool },
    OutputStream,
    GetState { is_completed: bool },
    SetState,
    ClearState,
    Sleep { is_completed: bool },
    Invoke {
        is_completed: bool,
        /// `None` if the invoke entry is completed by the service endpoint.
        resolution_result: Option<ResolutionResult>,
    },
    BackgroundInvoke { resolution_result: ResolutionResult },
    Awakeable { is_completed: bool },
    CompleteAwakeable,
    Custom { code: u16, requires_ack: bool },
}

impl EnrichedEntryHeader {
    /// Whether this entry kind can be resolved out-of-band by a completion.
    pub open spec fn completable(self) -> bool {
        match self {
            EnrichedEntryHeader::PollInputStream { .. } => true,
            EnrichedEntryHeader::GetState { .. } => true,
            EnrichedEntryHeader::Sleep { .. } => true,
            EnrichedEntryHeader::Invoke { .. } => true,
            EnrichedEntryHeader::Awakeable { .. } => true,
            _ => false,
        }
    }

    /// Whether the header records its entry as completed. Always false for
    /// kinds that cannot receive a completion.
    pub open spec fn completed(self) -> bool {
        match self {
            EnrichedEntryHeader::PollInputStream { is_completed } => is_completed,
            EnrichedEntryHeader::GetState { is_completed } => is_completed,
            EnrichedEntryHeader::Sleep { is_completed } => is_completed,
            EnrichedEntryHeader::Invoke { is_completed, .. } => is_completed,
            EnrichedEntryHeader::Awakeable { is_completed } => is_completed,
            _ => false,
        }
    }

    /// This header with its completion flag set; the identity on kinds that
    /// cannot receive a completion.
    pub open spec fn after_completion(self) -> EnrichedEntryHeader {
        match self {
            EnrichedEntryHeader::PollInputStream { .. } => EnrichedEntryHeader::PollInputStream {
                is_completed: true,
            },
            EnrichedEntryHeader::GetState { .. } => EnrichedEntryHeader::GetState {
                is_completed: true,
            },
            EnrichedEntryHeader::Sleep { .. } => EnrichedEntryHeader::Sleep { is_completed: true },
            EnrichedEntryHeader::Invoke { resolution_result, .. } => EnrichedEntryHeader::Invoke {
                is_completed: true,
                resolution_result,
            },
            EnrichedEntryHeader::Awakeable { .. } => EnrichedEntryHeader::Awakeable {
                is_completed: true,
            },
            other => other,
        }
    }

    pub fn is_completable(&self) -> (r: bool)
        ensures
            r == self.completable(),
    {
        match self {
            EnrichedEntryHeader::PollInputStream { .. } => true,
            EnrichedEntryHeader::GetState { .. } => true,
            EnrichedEntryHeader::Sleep { .. } => true,
            EnrichedEntryHeader::Invoke { .. } => true,
            EnrichedEntryHeader::Awakeable { .. } => true,
            _ => false,
        }
    }

    pub fn is_completed(&self) -> (r: bool)
        ensures
            r == self.completed(),
    {
        match self {
            EnrichedEntryHeader::PollInputStream { is_completed } => *is_completed,
            EnrichedEntryHeader::GetState { is_completed } => *is_completed,
            EnrichedEntryHeader::Sleep { is_completed } => *is_completed,
            EnrichedEntryHeader::Invoke { is_completed, .. } => *is_completed,
            EnrichedEntryHeader::Awakeable { is_completed } => *is_completed,
            _ => false,
        }
    }

    /// Set the completion flag of this header in place.
    pub fn mark_completed(&mut self)
        ensures
            *final(self) == old(self).after_completion(),
    {
        match self {
            EnrichedEntryHeader::PollInputStream { is_completed } => *is_completed = true,
            EnrichedEntryHeader::GetState { is_completed } => *is_completed = true,
            EnrichedEntryHeader::Sleep { is_completed } => *is_completed = true,
            EnrichedEntryHeader::Invoke { is_completed, .. } => *is_completed = true,
            EnrichedEntryHeader::Awakeable { is_completed } => *is_completed = true,
            _ => (),
        }
    }
}

/// A header with its completion flag set is completed, and still completable.
pub proof fn lemma_after_completion(h: EnrichedEntryHeader)
    requires
        h.completable(),
    ensures
        h.after_completion().completed(),
        h.after_completion().completable(),
{
}

/// A serialized journal entry: an enriched header and the opaque payload
/// bytes of the record. Entries are immutable once appended.
#[derive(Debug, Clone, PartialEq, Eq)]
pub struct RawEntry<H> {
    pub header: H,
    pub entry: Vec<u8>,
}

impl<H> RawEntry<H> {
    pub fn new(header: H, entry: Vec<u8>) -> (r: Self)
        ensures
            r.header == header,
            r.entry == entry,
    {
        Self { header, entry }
    }

    pub fn into_inner(self) -> (r: (H, Vec<u8>))
        ensures
            r.0 == self.header,
            r.1 == self.entry,
    {
        (self.header, self.entry)
    }
}

pub type EnrichedRawEntry = RawEntry<EnrichedEntryHeader>;

/// Outcome delivered to a waiting journal entry. Exactly one completion
/// takes effect per entry index; duplicate delivery is idempotent.
#[derive(Debug, Clone, PartialEq, Eq)]
pub enum CompletionResult {
    Ack,
    Empty,
    Success(Vec<u8>),
    Failure(i32, String),
}

impl From<ResponseResult> for CompletionResult {
    fn from(value: ResponseResult) -> (r: Self) {
        match value {
            ResponseResult::Success(bytes) => CompletionResult::Success(bytes),
            ResponseResult::Failure(error_code, error_msg) => CompletionResult::Failure(
                error_code,
                error_msg,
            ),
        }
    }
}

impl vstd::std_specs::convert::FromSpecImpl<ResponseResult> for CompletionResult {
    open spec fn obeys_from_spec() -> bool {
        true
    }

    open spec fn from_spec(value: ResponseResult) -> Self {
        match value {
            ResponseResult::Success(bytes) => CompletionResult::Success(bytes),
            ResponseResult::Failure(error_code, error_msg) => CompletionResult::Failure(
                error_code,
                error_msg,
            ),
        }
    }
}

/// The two kinds of journal rows persisted by the runtime: an appended
/// effect record, or the completion stored for one.
#[derive(Debug)]
pub enum JournalEntry {
    Entry(EnrichedRawEntry),
    Completion(CompletionResult),
}

/// Metadata associated with a journal: its entry count, the invoked method
/// and the invocation's span context. The length only increases while an
/// invocation is active and is reset to 0 on a new invocation.
#[derive(Debug, Clone, PartialEq)]
pub struct JournalMetadata {
    pub length: EntryIndex,
    pub method: String,
    pub span_context: ServiceInvocationSpanContext,
}

impl JournalMetadata {
    pub fn new(
        method: String,
        span_context: ServiceInvocationSpanContext,
        length: EntryIndex,
    ) -> (r: Self)
        ensures
            r == (JournalMetadata { length, method, span_context }),
    {
        Self { method, span_context, length }
    }
}

/// Status of a given journal.
#[derive(Debug)]
pub struct JournalStatus {
    pub length: EntryIndex,
    pub span_context: ServiceInvocationSpanContext,
}

/// Mathematical model of a [`Journal`]: the appended entries, in append
/// order, and for each index the completion stored for it, if any.
pub struct JournalView {
    pub entries: Seq<EnrichedRawEntry>,
    pub completions: Seq<Option<CompletionResult>>,
}

impl JournalView {
    /// Well-formed journal: one completion slot per entry, indexes fit in an
    /// [`EntryIndex`], and a stored completion implies the entry's header is
    /// completable and marked completed.
    pub open spec fn wf(self) -> bool {
        &&& self.completions.len() == self.entries.len()
        &&& self.entries.len() <= u32::MAX
        &&& forall|i: int|
            #![trigger self.completions[i]]
            0 <= i < self.entries.len() ==> (self.completions[i] is Some
                ==> self.entries[i].header.completable() && self.entries[i].header.completed())
    }

    pub open spec fn len(self) -> nat {
        self.entries.len()
    }

    pub open spec fn empty() -> JournalView {
        JournalView { entries: Seq::empty(), completions: Seq::empty() }
    }

    /// Whether the entry at `idx` is recorded as completed.
    pub open spec fn entry_completed(self, idx: int) -> bool {
        self.entries[idx].header.completed()
    }

    /// Whether a completion for `idx` can take effect: the index exists and
    /// its entry is completable and still pending.
    pub open spec fn can_complete(self, idx: int) -> bool {
        &&& 0 <= idx < self.entries.len()
        &&& self.entries[idx].header.completable()
        &&& !self.entries[idx].header.completed()
    }

    /// The journal after appending `entry`, which takes the next index.
    pub open spec fn append(self, entry: EnrichedRawEntry) -> JournalView {
        JournalView {
            entries: self.entries.push(entry),
            completions: self.completions.push(Option::None),
        }
    }

    /// The journal after applying `result` to the entry at `idx`: the
    /// pending entry becomes completed and the result is stored for it; a
    /// journal where the completion cannot take effect is unchanged.
    pub open spec fn apply_completion(self, idx: int, result: CompletionResult) -> JournalView {
        if self.can_complete(idx) {
            JournalView {
                entries: self.entries.update(
                    idx,
                    RawEntry {
                        header: self.entries[idx].header.after_completion(),
                        entry: self.entries[idx].entry,
                    },
                ),
                completions: self.completions.update(idx, Option::Some(result)),
            }
        } else {
            self
        }
    }
}

/// Appending preserves well-formedness.
pub proof fn lemma_append_preserves_wf(j: JournalView, entry: EnrichedRawEntry)
    requires
        j.wf(),
        j.len() < u32::MAX,
    ensures
        j.append(entry).wf(),
{
    let j2 = j.append(entry);
    assert forall|i: int|
        #![trigger j2.completions[i]]
        0 <= i < j2.entries.len() implies (j2.completions[i] is Some
        ==> j2.entries[i].header.completable() && j2.entries[i].header.completed()) by {
        if i < j.entries.len() {
            assert(j2.completions[i] == j.completions[i]);
            assert(j2.entries[i] == j.entries[i]);
        }
    }
}

/// Applying a completion preserves well-formedness.
pub proof fn lemma_apply_completion_preserves_wf(j: JournalView, idx: int, result: CompletionResult)
    requires
        j.wf(),
    ensures
        j.apply_completion(idx, result).wf(),
{
    if j.can_complete(idx) {
        lemma_after_completion(j.entries[idx].header);
    }
}

/// Applying the same completion to the same entry index twice yields the
/// same journal as applying it once: the second application finds the entry
/// already completed and changes nothing.
pub proof fn lemma_apply_completion_idempotent(j: JournalView, idx: int, result: CompletionResult)
    requires
        j.wf(),
    ensures
        j.apply_completion(idx, result).apply_completion(idx, result) == j.apply_completion(
            idx,
            result,
        ),
{
    if j.can_complete(idx) {
        lemma_after_completion(j.entries[idx].header);
        assert(!j.apply_completion(idx, result).can_complete(idx));
    }
}

/// The journal of one invocation. Append is the only mutation; completions
/// resolve pending entries in place and are stored alongside them.
#[derive(Debug)]
pub struct Journal {
    entries: Vec<EnrichedRawEntry>,
    completions: Vec<Option<CompletionResult>>,
}

impl View for Journal {
    type V = JournalView;

    closed spec fn view(&self) -> JournalView {
        JournalView { entries: self.entries@, completions: self.completions@ }
    }
}

impl Journal {
    pub fn new() -> (r: Self)
        ensures
            r@ == JournalView::empty(),
            r@.wf(),
    {
        Journal { entries: Vec::new(), completions: Vec::new() }
    }

    pub fn len(&self) -> (n: usize)
        ensures
            n == self@.len(),
    {
        self.entries.len()
    }

    /// Append `entry`; it is assigned the next sequential index, which is
    /// returned.
    pub fn append(&mut self, entry: EnrichedRawEntry) -> (idx: EntryIndex)
        requires
            old(self)@.wf(),
            old(self)@.len() < u32::MAX,
        ensures
            final(self)@ == old(self)@.append(entry),
            final(self)@.wf(),
            idx == old(self)@.len(),
    {
        proof {
            lemma_append_preserves_wf(self@, entry);
        }
        let idx = self.entries.len() as u32;
        self.entries.push(entry);
        self.completions.push(None);
        idx
    }

    /// Apply `result` to the entry at `idx`. Returns whether the completion
    /// took effect; a completion for an index that does not exist, cannot be
    /// completed, or was already completed leaves the journal unchanged.
    pub fn apply_completion(&mut self, idx: EntryIndex, result: CompletionResult) -> (applied: bool)
        requires
            old(self)@.wf(),
        ensures
            final(self)@ == old(self)@.apply_completion(idx as int, result),
            final(self)@.wf(),
            applied == old(self)@.can_complete(idx as int),
    {
        proof {
            lemma_apply_completion_preserves_wf(self@, idx as int, result);
        }
        if (idx as usize) < self.entries.len() {
            let i = idx as usize;
            if self.entries[i].header.is_completable() && !self.entries[i].header.is_completed() {
                self.entries[i].header.mark_completed();
                self.completions[i] = Some(result);
                proof {
                    assert(self@.entries =~= old(self)@.apply_completion(idx as int, result).entries);
                    assert(self@.completions =~= old(self)@.apply_completion(
                        idx as int,
                        result,
                    ).completions);
                }
                return true;
            }
            false
        } else {
            false
        }
    }

    /// Whether the entry at `idx` is of a kind that can receive a
    /// completion.
    pub fn is_entry_completable(&self, idx: EntryIndex) -> (r: bool)
        requires
            idx < self@.len(),
        ensures
            r == self@.entries[idx as int].header.completable(),
    {
        self.entries[idx as usize].header.is_completable()
    }

    /// Whether the entry at `idx` is recorded as completed.
    pub fn is_entry_completed(&self, idx: EntryIndex) -> (r: bool)
        requires
            idx < self@.len(),
        ensures
            r == self@.entry_completed(idx as int),
    {
        self.entries[idx as usize].header.is_completed()
    }

    /// The entry at `idx`, for replaying the journal to a resumed
    /// invocation.
    pub fn entry_at(&self, idx: EntryIndex) -> (r: &EnrichedRawEntry)
        requires
            idx < self@.len(),
        ensures
            *r == self@.entries[idx as int],
    {
        &self.entries[idx as usize]
    }

    /// The completion stored for the entry at `idx`, if one arrived
    /// out-of-band.
    pub fn stored_completion(&self, idx: EntryIndex) -> (r: &Option<CompletionResult>)
        requires
            self@.wf(),
            idx < self@.len(),
        ensures
            *r == self@.completions[idx as int],
    {
        &self.completions[idx as usize]
    }

    /// Discard all entries, for an invocation that reached its end.
    pub fn clear(&mut self)
        ensures
            final(self)@ == JournalView::empty(),
            final(self)@.wf(),
    {
        self.entries.clear();
        self.completions.clear();
        proof {
            assert(self@.entries =~= JournalView::empty().entries);
            assert(self@.completions =~= JournalView::empty().completions);
        }
    }
}

} // verus!
