//! What a display shows: the elapsed time as `HH:MM:SS.hh`, and the caption
//! of the button that starts and stops the stopwatch.

use vstd::prelude::*;
use vstd::string::*;
use crate::machine::TickState;
use crate::time::{Duration, NANOS_PER_MILLI, NANOS_PER_SEC};

verus! {

/// Seconds in one minute.
pub const MINUTE: u128 = 60;

/// Seconds in one hour.
pub const HOUR: u128 = 60 * MINUTE;

/// The character that stands for the digit `d`.
pub open spec fn digit_char(d: nat) -> char
    recommends
        d < 10,
{
    if d == 0 {
        '0'
    } else if d == 1 {
        '1'
    } else if d == 2 {
        '2'
    } else if d == 3 {
        '3'
    } else if d == 4 {
        '4'
    } else if d == 5 {
        '5'
    } else if d == 6 {
        '6'
    } else if d == 7 {
        '7'
    } else if d == 8 {
        '8'
    } else {
        '9'
    }
}

/// `n` in decimal, without leading zeros.
pub open spec fn decimal(n: nat) -> Seq<char>
    decreases n,
{
    if n < 10 {
        seq![digit_char(n)]
    } else {
        decimal(n / 10).push(digit_char(n % 10))
    }
}

/// `n` in decimal, with a leading zero where it has one digit only.
pub open spec fn two_digits(n: nat) -> Seq<char> {
    if n < 10 {
        seq!['0'] + decimal(n)
    } else {
        decimal(n)
    }
}

/// A duration of `nanos` nanoseconds as hours, minutes, seconds and
/// hundredths of a second. Time below a hundredth is cut off.
pub open spec fn clock_text(nanos: nat) -> Seq<char> {
    let secs = nanos / (NANOS_PER_SEC as nat);
    let millis = (nanos % (NANOS_PER_SEC as nat)) / (NANOS_PER_MILLI as nat);
    two_digits(secs / (HOUR as nat)) + seq![':'] + two_digits((secs % (HOUR as nat)) / (MINUTE as nat))
        + seq![':'] + two_digits(secs % (MINUTE as nat)) + seq!['.'] + two_digits(millis / 10)
}

fn digit_str(d: u128) -> (s: &'static str)
    requires
        d < 10,
    ensures
        s@ == seq![digit_char(d as nat)],
{
    proof {
        reveal_strlit("0");
        reveal_strlit("1");
        reveal_strlit("2");
        reveal_strlit("3");
        reveal_strlit("4");
        reveal_strlit("5");
        reveal_strlit("6");
        reveal_strlit("7");
        reveal_strlit("8");
        reveal_strlit("9");
    }
    let s = if d == 0 {
        "0"
    } else if d == 1 {
        "1"
    } else if d == 2 {
        "2"
    } else if d == 3 {
        "3"
    } else if d == 4 {
        "4"
    } else if d == 5 {
        "5"
    } else if d == 6 {
        "6"
    } else if d == 7 {
        "7"
    } else if d == 8 {
        "8"
    } else {
        "9"
    };
    assert(s@ =~= seq![digit_char(d as nat)]);
    s
}

fn push_decimal(text: &mut String, n: u128)
    ensures
        final(text)@ == old(text)@ + decimal(n as nat),
    decreases n,
{
    if n >= 10 {
        push_decimal(text, n / 10);
    }
    text.append(digit_str(n % 10));
    assert(text@ =~= old(text)@ + decimal(n as nat));
}

fn push_two_digits(text: &mut String, n: u128)
    ensures
        final(text)@ == old(text)@ + two_digits(n as nat),
{
    if n < 10 {
        proof {
            reveal_strlit("0");
        }
        text.append("0");
    }
    push_decimal(text, n);
    assert(text@ =~= old(text)@ + two_digits(n as nat));
}

/// The text that shows `duration`: hours, minutes and seconds with two
/// digits each (hours with more where they need them), then the hundredths
/// of the running second.
pub fn format_duration(duration: Duration) -> (text: String)
    ensures
        text@ == clock_text(duration@),
{
    let secs = duration.as_secs();
    let millis: u128 = duration.subsec_millis() as u128;
    let mut text = String::new();
    push_two_digits(&mut text, secs / HOUR);
    proof {
        reveal_strlit(":");
        reveal_strlit(".");
    }
    text.append(":");
    push_two_digits(&mut text, (secs % HOUR) / MINUTE);
    text.append(":");
    push_two_digits(&mut text, secs % MINUTE);
    text.append(".");
    push_two_digits(&mut text, millis / 10);
    assert(text@ =~= clock_text(duration@));
    text
}

/// The caption of the button that starts and stops the stopwatch: what a
/// press of it will do.
pub fn toggle_label(state: TickState) -> (label: &'static str)
    ensures
        state is Stopped ==> label@ == "Start"@,
        state is Ticking ==> label@ == "Stop"@,
{
    match state {
        TickState::Stopped => "Start",
        TickState::Ticking => "Stop",
    }
}

} // verus!
