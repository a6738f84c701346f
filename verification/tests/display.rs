use stopwatch::display::{HOUR, MINUTE};
use stopwatch::{format_duration, toggle_label, Duration, TickState};

const SECOND: u128 = 1_000_000_000;

fn expected(nanos: u128) -> String {
    let secs = nanos / SECOND;
    let hundredths = (nanos % SECOND) / 10_000_000;
    format!(
        "{:0>2}:{:0>2}:{:0>2}.{:0>2}",
        secs / 3600,
        (secs % 3600) / 60,
        secs % 60,
        hundredths
    )
}

#[test]
fn minute_and_hour_in_seconds() {
    assert_eq!(MINUTE, 60);
    assert_eq!(HOUR, 3600);
}

#[test]
fn zero_shows_all_zeros() {
    assert_eq!(format_duration(Duration::zero()), "00:00:00.00");
}

#[test]
fn one_second_shows_as_one_second() {
    assert_eq!(format_duration(Duration::from_nanos(SECOND)), "00:00:01.00");
}

#[test]
fn sixty_five_seconds_show_as_a_minute_and_five() {
    assert_eq!(format_duration(Duration::from_nanos(65 * SECOND)), "00:01:05.00");
}

#[test]
fn hundredths_are_cut_off_not_rounded() {
    assert_eq!(format_duration(Duration::from_nanos(9_999_999)), "00:00:00.00");
    assert_eq!(format_duration(Duration::from_nanos(10_000_000)), "00:00:00.01");
    assert_eq!(format_duration(Duration::from_nanos(1_999_999_999)), "00:00:01.99");
    assert_eq!(format_duration(Duration::from_millis(1_234)), "00:00:01.23");
    assert_eq!(format_duration(Duration::from_millis(500)), "00:00:00.50");
}

#[test]
fn fields_carry_at_sixty() {
    assert_eq!(format_duration(Duration::from_nanos(59 * SECOND)), "00:00:59.00");
    assert_eq!(format_duration(Duration::from_nanos(60 * SECOND)), "00:01:00.00");
    assert_eq!(format_duration(Duration::from_nanos(3_599 * SECOND + 990_000_000)), "00:59:59.99");
    assert_eq!(format_duration(Duration::from_nanos(3_600 * SECOND)), "01:00:00.00");
    assert_eq!(format_duration(Duration::from_nanos(3_661 * SECOND)), "01:01:01.00");
    assert_eq!(format_duration(Duration::from_nanos(36_000 * SECOND)), "10:00:00.00");
}

#[test]
fn hours_take_the_digits_they_need() {
    assert_eq!(format_duration(Duration::from_nanos(99 * 3_600 * SECOND)), "99:00:00.00");
    assert_eq!(format_duration(Duration::from_nanos(100 * 3_600 * SECOND)), "100:00:00.00");
    assert_eq!(
        format_duration(Duration::from_nanos(123_456 * 3_600 * SECOND + 7 * 60 * SECOND + 8 * SECOND + 90_000_000)),
        "123456:07:08.09"
    );
}

#[test]
fn longest_duration_shows_in_full() {
    assert_eq!(
        format_duration(Duration::from_nanos(u128::MAX)),
        "94522879700260684295381835:23:51.76"
    );
    assert_eq!(format_duration(Duration::from_nanos(u128::MAX)), expected(u128::MAX));
}

#[test]
fn text_agrees_with_padded_decimal_fields() {
    let mut nanos: u128 = 0;
    let mut step: u128 = 1;
    while nanos < 500_000 * SECOND {
        assert_eq!(format_duration(Duration::from_nanos(nanos)), expected(nanos));
        nanos += step;
        step = step * 3 + 7_000_001;
    }
}

#[test]
fn toggle_label_says_what_a_press_will_do() {
    assert_eq!(toggle_label(TickState::Stopped), "Start");
    assert_eq!(toggle_label(TickState::Ticking), "Stop");
}
