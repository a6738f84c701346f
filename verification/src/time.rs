//! Time as plain numbers: durations and points on a clock, both counted in
//! whole nanoseconds.

use vstd::prelude::*;

verus! {

/// Nanoseconds in one second.
pub const NANOS_PER_SEC: u128 = 1_000_000_000;

/// Nanoseconds in one millisecond.
pub const NANOS_PER_MILLI: u128 = 1_000_000;

/// The time that passes from `earlier` to `later`, and zero where `later`
/// lies before `earlier`.
pub open spec fn span(earlier: nat, later: nat) -> nat {
    if later >= earlier {
        (later - earlier) as nat
    } else {
        0
    }
}

/// A length of time. Its view is the number of nanoseconds it lasts.
#[derive(Clone, Copy, Debug, PartialEq, Eq, Structural)]
pub struct Duration {
    pub nanos: u128,
}

impl View for Duration {
    type V = nat;

    open spec fn view(&self) -> nat {
        self.nanos as nat
    }
}

impl Duration {
    /// The duration of no time at all.
    pub fn zero() -> (d: Duration)
        ensures
            d@ == 0,
    {
        Duration { nanos: 0 }
    }

    /// The duration of `nanos` nanoseconds.
    pub fn from_nanos(nanos: u128) -> (d: Duration)
        ensures
            d@ == nanos,
    {
        Duration { nanos }
    }

    /// The duration of `millis` milliseconds.
    pub fn from_millis(millis: u64) -> (d: Duration)
        ensures
            d@ == millis * NANOS_PER_MILLI,
    {
        Duration { nanos: millis as u128 * NANOS_PER_MILLI }
    }

    /// This duration in nanoseconds.
    pub fn as_nanos(&self) -> (n: u128)
        ensures
            n == self@,
    {
        self.nanos
    }

    /// The whole seconds in this duration.
    pub fn as_secs(&self) -> (secs: u128)
        ensures
            secs == self@ / (NANOS_PER_SEC as nat),
    {
        self.nanos / NANOS_PER_SEC
    }

    /// The part of this duration beyond its whole seconds, in whole
    /// milliseconds: always below 1000.
    pub fn subsec_millis(&self) -> (millis: u32)
        ensures
            millis == (self@ % (NANOS_PER_SEC as nat)) / (NANOS_PER_MILLI as nat),
            millis < 1000,
    {
        ((self.nanos % NANOS_PER_SEC) / NANOS_PER_MILLI) as u32
    }

    /// The sum of two durations, or `None` where it is too long to hold.
    pub fn checked_add(self, rhs: Duration) -> (sum: Option<Duration>)
        ensures
            match sum {
                Some(d) => d@ == self@ + rhs@,
                None => self@ + rhs@ > u128::MAX,
            },
    {
        match self.nanos.checked_add(rhs.nanos) {
            Some(nanos) => Some(Duration { nanos }),
            None => None,
        }
    }
}

/// A point in time, read off a clock. Its view is the number of nanoseconds
/// between the clock's origin and this point.
#[derive(Clone, Copy, Debug, PartialEq, Eq, Structural)]
pub struct Timestamp {
    pub nanos: u128,
}

impl View for Timestamp {
    type V = nat;

    open spec fn view(&self) -> nat {
        self.nanos as nat
    }
}

impl Timestamp {
    /// The point that lies `nanos` nanoseconds after the clock's origin.
    pub fn from_nanos(nanos: u128) -> (t: Timestamp)
        ensures
            t@ == nanos,
    {
        Timestamp { nanos }
    }

    /// The nanoseconds from the clock's origin to this point.
    pub fn as_nanos(&self) -> (n: u128)
        ensures
            n == self@,
    {
        self.nanos
    }

    /// The time that passed from `earlier` to this point, and zero where
    /// `earlier` is in fact the later of the two.
    pub fn duration_since(&self, earlier: Timestamp) -> (d: Duration)
        ensures
            d@ == span(earlier@, self@),
    {
        if self.nanos >= earlier.nanos {
            Duration { nanos: self.nanos - earlier.nanos }
        } else {
            Duration { nanos: 0 }
        }
    }
}

} // verus!
