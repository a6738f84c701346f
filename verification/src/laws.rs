//! What holds of every stopwatch, proved of the machine that `Stopwatch`
//! implements: single steps first, then whole histories.

use vstd::prelude::*;
use crate::machine::{Message, StopwatchView};
use crate::time::span;

verus! {

/// A message together with the time at which it arrives.
pub struct Event {
    pub message: Message,
    pub at: nat,
}

/// The state that `events`, taken in order, lead to from `state`.
pub open spec fn run(state: StopwatchView, events: Seq<Event>) -> StopwatchView
    decreases events.len(),
{
    if events.len() == 0 {
        state
    } else {
        run(state.step(events[0].message, events[0].at), events.drop_first())
    }
}

/// A reset leaves no elapsed time, whatever the state before it, and
/// neither starts nor stops the stopwatch.
pub proof fn law_reset_clears(state: StopwatchView, now: nat)
    ensures
        state.step(Message::Reset, now).elapsed == 0,
        state.step(Message::Reset, now).running() == state.running(),
{
}

/// A stop changes nothing in a stopwatch that is stopped.
pub proof fn law_stop_when_stopped(state: StopwatchView, now: nat)
    requires
        !state.running(),
    ensures
        state.step(Message::Stop, now) == state,
{
}

/// A start changes nothing in a stopwatch that runs: it goes on counting
/// from the timestamp it had.
pub proof fn law_start_when_running(state: StopwatchView, now: nat)
    requires
        state.running(),
    ensures
        state.step(Message::Start, now) == state,
        state.step(Message::Start, now).last == state.last,
{
}

/// A tick changes nothing in a stopwatch that is stopped.
pub proof fn law_tick_when_stopped(state: StopwatchView, now: nat)
    requires
        !state.running(),
    ensures
        state.step(Message::Update, now) == state,
{
}

/// Only a reset makes the elapsed time shrink.
pub proof fn law_elapsed_never_shrinks(state: StopwatchView, message: Message, now: nat)
    requires
        message != Message::Reset,
    ensures
        state.step(message, now).elapsed >= state.elapsed,
{
}

/// While the stopwatch is stopped its elapsed time stands still, until a
/// reset clears it.
pub proof fn law_stopped_is_frozen(state: StopwatchView, message: Message, now: nat)
    requires
        !state.running(),
        message != Message::Reset,
    ensures
        state.step(message, now).elapsed == state.elapsed,
{
}

/// The running time that `events` complete: a start that finds the
/// stopwatch stopped opens an interval at its time, the next stop closes
/// it, and the lengths of the closed intervals add up. `open` is the
/// beginning of an interval that was open before `events`.
pub open spec fn completed_time(open: Option<nat>, events: Seq<Event>) -> nat
    decreases events.len(),
{
    if events.len() == 0 {
        0
    } else {
        let rest = events.drop_first();
        match (events[0].message, open) {
            (Message::Start, None) => completed_time(Some(events[0].at), rest),
            (Message::Stop, Some(begin)) => span(begin, events[0].at) + completed_time(None, rest),
            _ => completed_time(open, rest),
        }
    }
}

/// Whether `events` holds starts and stops only.
pub open spec fn starts_and_stops(events: Seq<Event>) -> bool {
    forall|i: int|
        0 <= i < events.len() ==> (#[trigger] events[i]).message == Message::Start || events[i].message
            == Message::Stop
}

/// Through any history of starts and stops, the elapsed time grows by the
/// time between each start and the stop that matches it, and by nothing
/// else.
pub proof fn law_starts_and_stops_add_up(state: StopwatchView, events: Seq<Event>)
    requires
        starts_and_stops(events),
    ensures
        run(state, events).elapsed == state.elapsed + completed_time(state.last, events),
    decreases events.len(),
{
    if events.len() > 0 {
        let rest = events.drop_first();
        assert forall|i: int| 0 <= i < rest.len() implies (#[trigger] rest[i]).message == Message::Start
            || rest[i].message == Message::Stop by {
            assert(rest[i] == events[i + 1]);
        }
        law_starts_and_stops_add_up(state.step(events[0].message, events[0].at), rest);
    }
}

/// The history in which a start and a stop take turns, beginning with a
/// start, at the times that `times` lists.
pub open spec fn taking_turns(times: Seq<nat>) -> Seq<Event> {
    Seq::new(
        times.len(),
        |i: int|
            Event { message: if i % 2 == 0 { Message::Start } else { Message::Stop }, at: times[i] },
    )
}

/// The time from `times[0]` to `times[1]`, from `times[2]` to `times[3]`
/// and so on, added up.
pub open spec fn sum_of_intervals(times: Seq<nat>) -> nat
    decreases times.len(),
{
    if times.len() < 2 {
        0
    } else {
        span(times[0], times[1]) + sum_of_intervals(times.skip(2))
    }
}

/// A stopped stopwatch that is started and stopped in turn ends stopped,
/// and has gained the time from each start to its stop.
pub proof fn law_intervals_add_up(state: StopwatchView, times: Seq<nat>)
    requires
        !state.running(),
        times.len() % 2 == 0,
    ensures
        run(state, taking_turns(times)) == (StopwatchView {
            elapsed: state.elapsed + sum_of_intervals(times),
            last: None,
        }),
    decreases times.len(),
{
    if times.len() >= 2 {
        let events = taking_turns(times);
        let begun = state.step(Message::Start, times[0]);
        let ended = begun.step(Message::Stop, times[1]);
        let after_start = events.drop_first();
        assert(after_start[0] == events[1]);
        assert(after_start.drop_first() =~= taking_turns(times.skip(2)));
        assert(run(state, events) == run(begun, after_start));
        assert(run(begun, after_start) == run(ended, taking_turns(times.skip(2))));
        law_intervals_add_up(ended, times.skip(2));
    }
}

/// From the state in which every stopwatch begins, starts and stops in
/// turn leave as elapsed time the sum of the intervals between them.
pub proof fn law_elapsed_is_sum_of_intervals(times: Seq<nat>)
    requires
        times.len() % 2 == 0,
    ensures
        run(StopwatchView::initial(), taking_turns(times)).elapsed == sum_of_intervals(times),
        !run(StopwatchView::initial(), taking_turns(times)).running(),
{
    law_intervals_add_up(StopwatchView::initial(), times);
}

/// The history of one tick at each of `times`.
pub open spec fn ticks(times: Seq<nat>) -> Seq<Event> {
    Seq::new(times.len(), |i: int| Event { message: Message::Update, at: times[i] })
}

/// Whether no time in `times` lies before `from`, none after `to`, and
/// none before the one in front of it.
pub open spec fn in_order_between(from: nat, times: Seq<nat>, to: nat) -> bool {
    &&& from <= to
    &&& forall|i: int| 0 <= i < times.len() ==> from <= #[trigger] times[i] <= to
    &&& forall|i: int, j: int| 0 <= i <= j < times.len() ==> times[i] <= times[j]
}

/// Ticks do not change what a stop yields: where time does not run
/// backwards, a running stopwatch that is ticked any number of times and
/// then stopped ends as if it had been stopped at once.
pub proof fn law_ticks_keep_the_total(state: StopwatchView, times: Seq<nat>, end: nat)
    requires
        state.last matches Some(last) && in_order_between(last, times, end),
    ensures
        run(state, ticks(times).push(Event { message: Message::Stop, at: end })) == state.stop(end),
        state.stop(end).elapsed == state.elapsed + (end - state.last->0),
    decreases times.len(),
{
    let stop = Event { message: Message::Stop, at: end };
    let events = ticks(times).push(stop);
    if times.len() == 0 {
        assert(events[0] == stop);
        assert(run(state, events) == run(state.stop(end), events.drop_first()));
    } else {
        let ticked = state.step(Message::Update, times[0]);
        let rest = times.drop_first();
        assert(events[0] == ticks(times)[0]);
        assert(events.drop_first() =~= ticks(rest).push(stop));
        assert forall|i: int| 0 <= i < rest.len() implies times[0] <= #[trigger] rest[i] <= end by {
            assert(rest[i] == times[i + 1]);
        }
        assert forall|i: int, j: int| 0 <= i <= j < rest.len() implies rest[i] <= rest[j] by {
            assert(rest[i] == times[i + 1]);
            assert(rest[j] == times[j + 1]);
        }
        law_ticks_keep_the_total(ticked, rest, end);
        assert(run(state, events) == run(ticked, events.drop_first()));
    }
}

} // verus!
