use crabby::timer::{SpawnEvent, SpawnTimer, SPAWN_DELAY_MICROS};

#[test]
fn spawn_delay_is_two_seconds() {
    assert_eq!(SPAWN_DELAY_MICROS, 2_000_000);
}

#[test]
fn idle_timer_reports_nothing() {
    let mut timer = SpawnTimer::idle();
    assert!(!timer.is_active());
    assert_eq!(timer.remaining(), None);
    assert_eq!(timer.tick(500_000), None);
    assert_eq!(timer.tick(u64::MAX), None);
    assert!(!timer.is_active());
}

#[test]
fn start_arms_the_timer() {
    let mut timer = SpawnTimer::idle();
    timer.start(SPAWN_DELAY_MICROS);
    assert!(timer.is_active());
    assert_eq!(timer.remaining(), Some(2_000_000));
}

#[test]
fn three_half_second_ticks_then_one_of_six_tenths() {
    let mut timer = SpawnTimer::idle();
    timer.start(2_000_000);
    assert_eq!(timer.tick(500_000), None);
    assert_eq!(timer.remaining(), Some(1_500_000));
    assert_eq!(timer.tick(500_000), None);
    assert_eq!(timer.remaining(), Some(1_000_000));
    assert_eq!(timer.tick(500_000), None);
    assert_eq!(timer.remaining(), Some(500_000));
    assert_eq!(timer.tick(600_000), Some(SpawnEvent));
    assert_eq!(timer.remaining(), None);
    assert!(!timer.is_active());
}

#[test]
fn timer_fires_when_the_remainder_reaches_zero_exactly() {
    let mut timer = SpawnTimer::idle();
    timer.start(2_000_000);
    assert_eq!(timer.tick(1_999_999), None);
    assert_eq!(timer.remaining(), Some(1));
    assert_eq!(timer.tick(1), Some(SpawnEvent));
    assert_eq!(timer.remaining(), None);
}

#[test]
fn a_very_long_tick_expires_the_timer_at_once() {
    let mut timer = SpawnTimer::idle();
    timer.start(SPAWN_DELAY_MICROS);
    assert_eq!(timer.tick(u64::MAX), Some(SpawnEvent));
    assert!(!timer.is_active());
}

#[test]
fn timer_fires_once_per_activation() {
    let mut timer = SpawnTimer::idle();
    timer.start(SPAWN_DELAY_MICROS);
    let mut events = 0;
    for _ in 0..10 {
        if timer.tick(700_000).is_some() {
            events += 1;
        }
    }
    assert_eq!(events, 1);
}

#[test]
fn timer_fires_on_the_first_tick_that_reaches_the_delay() {
    let deltas: [u64; 5] = [400_000, 900_000, 600_000, 100_000, 3_000_000];
    let mut timer = SpawnTimer::idle();
    timer.start(SPAWN_DELAY_MICROS);
    let fired: Vec<bool> = deltas.iter().map(|d| timer.tick(*d).is_some()).collect();
    // Running sums: 0.4 s, 1.3 s, 1.9 s, 2.0 s, 5.0 s.
    assert_eq!(fired, vec![false, false, false, true, false]);
}

#[test]
fn ticks_that_sum_below_the_delay_report_nothing() {
    let mut timer = SpawnTimer::idle();
    timer.start(SPAWN_DELAY_MICROS);
    for _ in 0..19 {
        assert_eq!(timer.tick(100_000), None);
    }
    assert_eq!(timer.remaining(), Some(100_000));
}

#[test]
fn a_tick_of_no_time_keeps_the_remainder() {
    let mut timer = SpawnTimer::idle();
    timer.start(5);
    assert_eq!(timer.tick(0), None);
    assert_eq!(timer.remaining(), Some(5));
}

#[test]
fn a_timer_armed_with_nothing_fires_on_the_next_tick() {
    let mut timer = SpawnTimer::idle();
    timer.start(0);
    assert!(timer.is_active());
    assert_eq!(timer.tick(0), Some(SpawnEvent));
    assert!(!timer.is_active());
}

#[test]
fn start_replaces_a_running_countdown() {
    let mut timer = SpawnTimer::idle();
    timer.start(10);
    assert_eq!(timer.tick(4), None);
    timer.start(10);
    assert_eq!(timer.remaining(), Some(10));
}
