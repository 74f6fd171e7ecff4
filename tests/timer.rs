use shooting_range::timer::{format_seconds, Countdown, TimeController, NANOS_PER_SECOND};

const MILLI: u64 = 1_000_000;

#[test]
fn sixty_seconds_ticked_by_fifty_nine_point_nine() {
    let mut t = TimeController::default();
    t.set_timer(60 * NANOS_PER_SECOND);
    t.run_timer(59_900 * MILLI);
    assert!(!t.is_finished());
    assert_eq!(t.get_time_left(), "0.10s");
    t.run_timer(200 * MILLI);
    assert!(t.is_finished());
    assert_eq!(t.get_time_left(), "0.00s");
}

#[test]
fn set_timer_twice_gives_a_fresh_countdown() {
    let mut t = TimeController::default();
    t.set_timer(5 * NANOS_PER_SECOND);
    t.run_timer(NANOS_PER_SECOND);
    t.set_timer(30 * NANOS_PER_SECOND);
    t.set_timer(30 * NANOS_PER_SECOND);
    assert_eq!(t.time_left, Some(Countdown { duration: 30 * NANOS_PER_SECOND, elapsed: 0 }));
    assert_eq!(t.get_time_left(), "30.00s");
}

#[test]
fn ticks_that_add_up_to_the_duration_finish_it() {
    let mut t = TimeController::default();
    t.set_timer(NANOS_PER_SECOND);
    for _ in 0..3 {
        t.run_timer(300 * MILLI);
        assert!(!t.is_finished());
    }
    t.run_timer(100 * MILLI);
    assert!(t.is_finished());
    assert_eq!(t.time_left.unwrap().elapsed, NANOS_PER_SECOND);
    t.run_timer(5 * NANOS_PER_SECOND);
    assert!(t.is_finished());
    assert_eq!(t.get_time_left(), "0.00s");
}

#[test]
fn no_countdown() {
    let mut t = TimeController::default();
    assert!(!t.is_finished());
    assert_eq!(t.get_time_left(), "No timer");
    t.run_timer(NANOS_PER_SECOND);
    assert_eq!(t.time_left, None);
    t.set_timer(NANOS_PER_SECOND);
    t.clear_timer();
    assert!(!t.is_finished());
}

#[test]
fn zero_duration_is_finished_at_once() {
    let mut t = TimeController::default();
    t.set_timer(0);
    assert!(t.is_finished());
}

#[test]
fn default_level_budgets() {
    let t = TimeController::default();
    assert_eq!(t.time_left, None);
    assert_eq!(t.level_1_time, 50 * NANOS_PER_SECOND);
    assert_eq!(t.level_2_time, 50 * NANOS_PER_SECOND);
    assert_eq!(t.level_3_time, 70 * NANOS_PER_SECOND);
    assert_eq!(t.level_4_time, 80 * NANOS_PER_SECOND);
    assert_eq!(t.level_5_time, 90 * NANOS_PER_SECOND);
}

#[test]
fn seconds_are_rounded_to_hundredths() {
    assert_eq!(format_seconds(0), "0.00s");
    assert_eq!(format_seconds(49_984 * MILLI), "49.98s");
    assert_eq!(format_seconds(49_985 * MILLI), "49.99s");
    assert_eq!(format_seconds(123_450 * MILLI), "123.45s");
    assert_eq!(format_seconds(9_999 * MILLI), "10.00s");
    assert_eq!(format_seconds(u64::MAX), "18446744073.71s");
}

#[test]
fn countdown_stops_at_its_duration() {
    let mut c = Countdown::new(10);
    c.tick(4);
    assert_eq!(c.remaining(), 6);
    assert!(!c.finished());
    c.tick(u64::MAX);
    assert_eq!(c.elapsed, 10);
    assert_eq!(c.remaining(), 0);
    c.reset();
    assert_eq!(c, Countdown { duration: 10, elapsed: 0 });
}
