//! The stopwatch as a mathematical state machine: its states, the commands
//! it takes, and what each command does to a state.

use vstd::prelude::*;
use crate::time::span;

verus! {

/// A command to the stopwatch.
#[derive(Clone, Copy, Debug, PartialEq, Eq, Structural)]
pub enum Message {
    /// Begin to run.
    Start,
    /// Cease to run, keeping the time run so far.
    Stop,
    /// Forget the time run so far.
    Reset,
    /// The periodic tick: take the time run since the last one into account.
    Update,
}

/// Whether the stopwatch runs.
#[derive(Clone, Copy, Debug, PartialEq, Eq, Structural)]
pub enum TickState {
    Stopped,
    Ticking,
}

/// The state of a stopwatch, in nanoseconds.
///
/// `elapsed` is the time accounted for so far. `last` is the point up to
/// which a running stopwatch has accounted for it; a stopped one has none.
pub struct StopwatchView {
    pub elapsed: nat,
    pub last: Option<nat>,
}

impl StopwatchView {
    /// The state in which every stopwatch begins: stopped, with nothing run.
    pub open spec fn initial() -> StopwatchView {
        StopwatchView { elapsed: 0, last: None }
    }

    /// Whether the stopwatch runs.
    pub open spec fn running(self) -> bool {
        self.last is Some
    }

    /// A stopped stopwatch begins to run at `now`; a running one is left as
    /// it is.
    pub open spec fn start(self, now: nat) -> StopwatchView {
        match self.last {
            Some(_) => self,
            None => StopwatchView { elapsed: self.elapsed, last: Some(now) },
        }
    }

    /// A running stopwatch accounts for the time since `last` and stops; a
    /// stopped one is left as it is.
    pub open spec fn stop(self, now: nat) -> StopwatchView {
        match self.last {
            Some(last) => StopwatchView { elapsed: self.elapsed + span(last, now), last: None },
            None => self,
        }
    }

    /// Nothing has run any more. A running stopwatch keeps running, and
    /// counts from `now`.
    pub open spec fn reset(self, now: nat) -> StopwatchView {
        match self.last {
            Some(_) => StopwatchView { elapsed: 0, last: Some(now) },
            None => StopwatchView { elapsed: 0, last: None },
        }
    }

    /// A running stopwatch accounts for the time since `last` and counts on
    /// from `now`; a stopped one is left as it is.
    pub open spec fn tick(self, now: nat) -> StopwatchView {
        match self.last {
            Some(last) => StopwatchView { elapsed: self.elapsed + span(last, now), last: Some(now) },
            None => self,
        }
    }

    /// The state after `message` has arrived at `now`.
    pub open spec fn step(self, message: Message, now: nat) -> StopwatchView {
        match message {
            Message::Start => self.start(now),
            Message::Stop => self.stop(now),
            Message::Reset => self.reset(now),
            Message::Update => self.tick(now),
        }
    }
}

} // verus!
