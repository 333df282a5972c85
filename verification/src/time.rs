//! Wall-clock timestamps used by the timer model.

use vstd::prelude::*;

verus! {

/// Milliseconds since the unix epoch.
#[derive(Debug, Clone, Copy, PartialEq, Eq, PartialOrd, Ord, Hash)]
pub struct MillisSinceEpoch(pub u64);

impl MillisSinceEpoch {
    pub fn new(millis_since_epoch: u64) -> (r: Self)
        ensures
            r.as_millis() == millis_since_epoch,
    {
        MillisSinceEpoch(millis_since_epoch)
    }

    /// The number of milliseconds this timestamp stands for.
    pub open spec fn as_millis(&self) -> u64 {
        self.0
    }

    pub fn as_u64(&self) -> (r: u64)
        ensures
            r == self.as_millis(),
    {
        self.0
    }
}

impl From<u64> for MillisSinceEpoch {
    fn from(value: u64) -> (r: Self) {
        MillisSinceEpoch(value)
    }
}

impl vstd::std_specs::convert::FromSpecImpl<u64> for MillisSinceEpoch {
    open spec fn obeys_from_spec() -> bool {
        true
    }

    open spec fn from_spec(value: u64) -> Self {
        MillisSinceEpoch(value)
    }
}

} // verus!
