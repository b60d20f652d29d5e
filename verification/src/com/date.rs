//! Points in time.

use vstd::prelude::*;

verus! {

/// A point in time: seconds since the Unix epoch in UTC, and the nanoseconds
/// into that second.
#[derive(Debug, Clone, Copy, PartialEq, Eq, Structural)]
pub struct UtcDateTime {
    pub secs: i64,
    pub nanos: u32,
}

impl UtcDateTime {
    pub fn new(secs: i64, nanos: u32) -> (t: UtcDateTime)
        ensures
            t.secs == secs,
            t.nanos == nanos,
    {
        UtcDateTime { secs, nanos }
    }

    /// The current time, from `chrono::Utc::now` (`timestamp` and
    /// `timestamp_subsec_nanos`). Nothing is promised of it.
    #[verifier::external_body]
    pub(crate) fn now() -> UtcDateTime {
        let now = chrono::Utc::now();
        UtcDateTime { secs: now.timestamp(), nanos: now.timestamp_subsec_nanos() }
    }

    /// The point's distance from the epoch in nanoseconds.
    pub open spec fn epoch_nanos(self) -> int {
        self.secs * 1_000_000_000 + self.nanos
    }

    /// Seconds since the epoch: what the point is written as for clients.
    pub fn timestamp(&self) -> (s: i64)
        ensures
            s == self.secs,
    {
        self.secs
    }
}

} // verus!
