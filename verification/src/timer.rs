//! The periodic tick: how often a stopwatch asks to be brought up to date.

use vstd::prelude::*;
use crate::time::{Duration, NANOS_PER_MILLI};

verus! {

/// Ticks per second that the display aims at.
pub const FPS: u64 = 30;

/// Milliseconds in one second.
pub const MILLISEC: u64 = 1000;

/// A source of ticks that come at a fixed interval. Its view is that
/// interval in nanoseconds.
#[derive(Clone, Copy, Debug, PartialEq, Eq, Structural)]
pub struct Timer {
    duration: Duration,
}

impl View for Timer {
    type V = nat;

    closed spec fn view(&self) -> nat {
        self.duration@
    }
}

impl Timer {
    /// A timer that ticks once every `duration`.
    pub fn new(duration: Duration) -> (timer: Timer)
        ensures
            timer@ == duration@,
    {
        Timer { duration: duration }
    }

    /// The time from one tick to the next.
    pub fn duration(&self) -> (duration: Duration)
        ensures
            duration@ == self@,
    {
        self.duration
    }

    /// The timer that drives a display: `FPS` ticks to the second, the
    /// interval cut down to whole milliseconds.
    pub fn for_display() -> (timer: Timer)
        ensures
            timer@ == (MILLISEC / FPS) * NANOS_PER_MILLI,
            timer@ == 33_000_000,
    {
        Timer::new(Duration::from_millis(MILLISEC / FPS))
    }
}

} // verus!
