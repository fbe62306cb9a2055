use std::time::Duration;

use spironmc::clock::{tick_duration, Clock, TICKS_PER_SECOND};

#[test]
fn starts_at_zero_and_counts_up() {
    let mut clock = Clock::new();
    assert_eq!(clock.current(), 0);
    assert_eq!(clock.advance(), 0);
    assert_eq!(clock.advance(), 1);
    assert_eq!(clock.current(), 2);
}

#[test]
fn targets_twenty_ticks_per_second() {
    let clock = Clock::new();
    assert_eq!(TICKS_PER_SECOND, 20);
    assert_eq!(clock.target(), Duration::from_millis(50));
    assert_eq!(tick_duration(), Duration::from_millis(50));
}

#[test]
fn records_last_tick_duration() {
    let mut clock = Clock::new();
    assert_eq!(clock.last_duration(), Duration::ZERO);
    clock.record(Duration::from_millis(7));
    assert_eq!(clock.last_duration(), Duration::from_millis(7));
}
