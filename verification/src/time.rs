//! Lengths of time with nanosecond resolution.

use vstd::prelude::*;

verus! {

/// Nanoseconds in one second.
pub const NANOS_PER_SEC: u128 = 1_000_000_000;

/// The length of `secs` whole seconds, in nanoseconds.
pub open spec fn secs(secs: nat) -> nat {
    secs * 1_000_000_000
}

/// A non-negative length of time, held as a count of nanoseconds.
///
/// Every count is a valid length, so the type carries no invariant; its view
/// is the count itself.
#[derive(Clone, Copy, Debug, PartialEq, Eq, Structural)]
pub struct Duration {
    pub nanos: u128,
}

impl View for Duration {
    type V = nat;

    open spec fn view(&self) -> nat {
        self.nanos as nat
    }
}

impl Duration {
    pub fn from_secs(s: u64) -> (d: Duration)
        ensures
            d@ == secs(s as nat),
    {
        Duration { nanos: (s as u128) * NANOS_PER_SEC }
    }

    /// `s` seconds and `n` nanoseconds; `n` may exceed one second.
    pub fn new(s: u64, n: u32) -> (d: Duration)
        ensures
            d@ == secs(s as nat) + n,
    {
        Duration { nanos: (s as u128) * NANOS_PER_SEC + (n as u128) }
    }

    pub fn from_nanos(n: u128) -> (d: Duration)
        ensures
            d@ == n,
    {
        Duration { nanos: n }
    }

    pub fn as_nanos(&self) -> (n: u128)
        ensures
            n == self@,
    {
        self.nanos
    }

    /// The whole seconds in this length, or `u64::MAX` where they do not fit.
    pub fn as_secs(&self) -> (s: u64)
        ensures
            s as nat == if self@ / 1_000_000_000 <= u64::MAX {
                self@ / 1_000_000_000
            } else {
                u64::MAX as nat
            },
    {
        let whole: u128 = self.nanos / NANOS_PER_SEC;
        if whole <= u64::MAX as u128 {
            whole as u64
        } else {
            u64::MAX
        }
    }

    /// What is left of this length after its whole seconds, in nanoseconds.
    pub fn subsec_nanos(&self) -> (n: u32)
        ensures
            n as nat == self@ % 1_000_000_000,
    {
        (self.nanos % NANOS_PER_SEC) as u32
    }

    pub fn min(self, other: Duration) -> (d: Duration)
        ensures
            d@ == if self@ <= other@ { self@ } else { other@ },
            d == self || d == other,
    {
        if self.nanos <= other.nanos {
            self
        } else {
            other
        }
    }

    pub fn max(self, other: Duration) -> (d: Duration)
        ensures
            d@ == if self@ >= other@ { self@ } else { other@ },
            d == self || d == other,
    {
        if self.nanos >= other.nanos {
            self
        } else {
            other
        }
    }

    /// This length held within `[low, high]`.
    pub fn clamp(self, low: Duration, high: Duration) -> (d: Duration)
        requires
            low@ <= high@,
        ensures
            d@ == clamp_spec(self@, low@, high@),
    {
        if self.nanos < low.nanos {
            low
        } else if self.nanos > high.nanos {
            high
        } else {
            self
        }
    }

    /// The sum of the two lengths, or the longest length there is where the
    /// sum does not fit.
    pub fn saturating_add(self, other: Duration) -> (d: Duration)
        ensures
            d@ == if self@ + other@ <= u128::MAX { self@ + other@ } else { u128::MAX as nat },
    {
        if self.nanos <= u128::MAX - other.nanos {
            Duration { nanos: self.nanos + other.nanos }
        } else {
            Duration { nanos: u128::MAX }
        }
    }
}

/// `x` held within `[low, high]`.
pub open spec fn clamp_spec(x: nat, low: nat, high: nat) -> nat {
    if x < low {
        low
    } else if x > high {
        high
    } else {
        x
    }
}

} // verus!
