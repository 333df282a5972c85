//! Timer model: keys for deferred wake-ups tied to a specific journal
//! position. Firing a timer is not a separate state change: it delivers a
//! synthetic completion to the recorded entry index through the normal
//! completion path, so a timer fired twice is absorbed by the same
//! duplicate-completion rule as any other replayed completion.

use vstd::prelude::*;

use crate::identity::{EntryIndex, ServiceInvocationId};
use crate::time::MillisSinceEpoch;

verus! {

/// A scheduled wake-up: unique per `(invocation, journal_index)`, due at an
/// absolute timestamp.
#[derive(Clone, Debug, Eq, PartialEq)]
pub struct TimerKey {
    pub service_invocation_id: ServiceInvocationId,
    pub journal_index: u32,
    pub timestamp: u64,
}

impl TimerKey {
    /// The key registered for a sleep entry: it wakes the given invocation
    /// at `wake_up_time` by completing the entry at `journal_index`.
    pub fn new(
        service_invocation_id: ServiceInvocationId,
        journal_index: EntryIndex,
        wake_up_time: MillisSinceEpoch,
    ) -> (r: Self)
        ensures
            r == (TimerKey {
                service_invocation_id,
                journal_index,
                timestamp: wake_up_time.as_millis(),
            }),
    {
        let timestamp = wake_up_time.as_u64();
        Self { service_invocation_id, journal_index, timestamp }
    }
}

/// The payload stored for a scheduled wake-up; the key alone determines
/// what firing does.
#[derive(Clone, Debug, Eq, PartialEq)]
pub struct Timer;

} // verus!
