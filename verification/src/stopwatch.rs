//! The stopwatch itself: the state machine of `machine`, held in machine
//! integers and driven one message at a time.

use vstd::prelude::*;
use crate::machine::{Message, StopwatchView, TickState};
use crate::time::{Duration, Timestamp};

verus! {

/// A stopwatch. It reads no clock: whoever sends it a message says when.
///
/// Its view is its state as the machine sees it. While it is stopped the
/// timestamp it holds means nothing and the view has none.
#[derive(Clone, Copy, Debug)]
pub struct Stopwatch {
    tick_state: TickState,
    last_update: Timestamp,
    total_duration: Duration,
}

impl View for Stopwatch {
    type V = StopwatchView;

    closed spec fn view(&self) -> StopwatchView {
        StopwatchView {
            elapsed: self.total_duration@,
            last: match self.tick_state {
                TickState::Ticking => Some(self.last_update@),
                TickState::Stopped => None,
            },
        }
    }
}

impl Stopwatch {
    /// A stopwatch that is stopped and has not run.
    pub fn new() -> (stopwatch: Stopwatch)
        ensures
            stopwatch@ == StopwatchView::initial(),
    {
        Stopwatch {
            tick_state: TickState::Stopped,
            last_update: Timestamp::from_nanos(0),
            total_duration: Duration::zero(),
        }
    }

    /// Whether the stopwatch runs.
    pub fn tick_state(&self) -> (state: TickState)
        ensures
            state is Ticking <==> self@.running(),
    {
        self.tick_state
    }

    /// The time accounted for so far. While the stopwatch runs, the time
    /// since the last tick is not in it yet.
    pub fn total_duration(&self) -> (duration: Duration)
        ensures
            duration@ == self@.elapsed,
    {
        self.total_duration
    }

    /// The point up to which a running stopwatch has accounted for its
    /// time; `None` while it is stopped.
    pub fn last_update(&self) -> (last: Option<Timestamp>)
        ensures
            match last {
                Some(t) => self@.last == Some(t@),
                None => self@.last is None,
            },
    {
        match self.tick_state {
            TickState::Ticking => Some(self.last_update),
            TickState::Stopped => None,
        }
    }

    /// The message that a press of the start-and-stop button sends.
    pub fn toggle_message(&self) -> (message: Message)
        ensures
            message == if self@.running() { Message::Stop } else { Message::Start },
    {
        match self.tick_state {
            TickState::Stopped => Message::Start,
            TickState::Ticking => Message::Stop,
        }
    }

    /// Whether the elapsed time can still be held once `message` has
    /// arrived at `now`.
    pub fn accepts(&self, message: Message, now: Timestamp) -> (ok: bool)
        ensures
            ok <==> self@.step(message, now@).elapsed <= u128::MAX,
    {
        match (message, self.tick_state) {
            (Message::Stop, TickState::Ticking) | (Message::Update, TickState::Ticking) => {
                self.total_duration.checked_add(now.duration_since(self.last_update)).is_some()
            },
            _ => true,
        }
    }

    /// Begins to run at `now`. Does nothing to a stopwatch that runs.
    pub fn start(&mut self, now: Timestamp)
        ensures
            final(self)@ == old(self)@.start(now@),
            old(self)@.running() ==> final(self)@ == old(self)@,
    {
        match self.tick_state {
            TickState::Ticking => {},
            TickState::Stopped => {
                self.tick_state = TickState::Ticking;
                self.last_update = now;
            },
        }
    }

    /// Accounts for the time up to `now` and stops. Does nothing to a
    /// stopwatch that is stopped.
    pub fn stop(&mut self, now: Timestamp)
        requires
            old(self)@.stop(now@).elapsed <= u128::MAX,
        ensures
            final(self)@ == old(self)@.stop(now@),
            !final(self)@.running(),
            !old(self)@.running() ==> final(self)@ == old(self)@,
    {
        match self.tick_state {
            TickState::Ticking => {
                let since = now.duration_since(self.last_update);
                self.total_duration = Duration::from_nanos(self.total_duration.as_nanos() + since.as_nanos());
                self.tick_state = TickState::Stopped;
            },
            TickState::Stopped => {},
        }
    }

    /// Forgets the time run so far. A stopwatch that runs keeps running and
    /// counts from `now`.
    pub fn reset(&mut self, now: Timestamp)
        ensures
            final(self)@ == old(self)@.reset(now@),
            final(self)@.elapsed == 0,
            final(self)@.running() == old(self)@.running(),
    {
        self.total_duration = Duration::zero();
        match self.tick_state {
            TickState::Ticking => {
                self.last_update = now;
            },
            TickState::Stopped => {},
        }
    }

    /// The periodic tick: a stopwatch that runs accounts for the time up to
    /// `now`. Does nothing to a stopwatch that is stopped.
    pub fn tick(&mut self, now: Timestamp)
        requires
            old(self)@.tick(now@).elapsed <= u128::MAX,
        ensures
            final(self)@ == old(self)@.tick(now@),
            final(self)@.running() == old(self)@.running(),
            final(self)@.elapsed >= old(self)@.elapsed,
            !old(self)@.running() ==> final(self)@ == old(self)@,
    {
        match self.tick_state {
            TickState::Ticking => {
                let since = now.duration_since(self.last_update);
                self.total_duration = Duration::from_nanos(self.total_duration.as_nanos() + since.as_nanos());
                self.last_update = now;
            },
            TickState::Stopped => {},
        }
    }

    /// Takes `message`, which arrived at `now`.
    pub fn update(&mut self, message: Message, now: Timestamp)
        requires
            old(self)@.step(message, now@).elapsed <= u128::MAX,
        ensures
            final(self)@ == old(self)@.step(message, now@),
    {
        match message {
            Message::Start => self.start(now),
            Message::Stop => self.stop(now),
            Message::Reset => self.reset(now),
            Message::Update => self.tick(now),
        }
    }
}

} // verus!
