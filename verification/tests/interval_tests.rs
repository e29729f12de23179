use async_spin_sleep::time::{Duration, Instant};
use async_spin_sleep::util::Interval;

fn at(n: i128) -> Instant {
    Instant { nanos: n }
}

fn ns(n: u128) -> Duration {
    Duration { nanos: n }
}

const MS: u128 = 1_000_000;

#[test]
fn new_schedule_ticks_one_interval_from_now() {
    let s = Interval::new(at(1000), ns(100));
    assert_eq!(s.wakeup_time(), at(1100));
    assert_eq!(s.interval(), ns(100));
}

#[test]
fn set_interval_keeps_previous_tick() {
    let mut s = Interval::new(at(1000), ns(100));
    assert!(s.set_interval_admissible(ns(300)));
    s.set_interval(ns(300));
    assert_eq!(s.wakeup_time(), at(1300));
    assert_eq!(s.interval(), ns(300));
    assert!(!s.set_interval_admissible(ns(0)));
}

#[test]
fn advance_moves_one_interval() {
    let mut s = Interval::new(at(900), ns(100));
    assert!(s.advance_admissible(at(1005), ns(50)));
    s.advance(at(1005), ns(50));
    assert_eq!(s.wakeup_time(), at(1100));
}

#[test]
fn advance_after_a_stall_skips_to_the_grid() {
    let mut s = Interval::new(at(900), ns(100));
    s.advance(at(1530), ns(50));
    assert_eq!(s.wakeup_time(), at(1600));
    assert_eq!((1600 - 1000) % 100, 0);
}

#[test]
fn advance_refuses_minimum_above_interval() {
    let s = Interval::new(at(900), ns(100));
    assert!(!s.advance_admissible(at(1000), ns(101)));
}

#[test]
fn align_with_clock_doc_example() {
    // The clock reads 8500us, the interval is 1000us: the next tick is at 9000us on that clock.
    let mut s = Interval::new(at(0), ns(MS));
    let epoch = ns(8_500_000);
    let now = at(10 * MS as i128);
    assert!(s.align_admissible(epoch, now, None, None, 0));
    s.align_with_clock(epoch, now, None, None, 0);
    assert_eq!(s.wakeup_time(), at(10_500_000));
    assert_eq!(s.interval(), ns(MS));
}

#[test]
fn align_with_clock_offset_example() {
    // An offset of 100us moves a tick due at 9000us to 9100us.
    let mut s = Interval::new(at(0), ns(MS));
    s.align_with_clock(ns(8_500_000), at(10_000_000), None, None, 100_000);
    assert_eq!(s.wakeup_time(), at(10_600_000));
}

#[test]
fn align_too_soon_after_previous_tick_moves_one_interval() {
    // Previous tick at 10ms; a tick at 10.5ms would come sooner than 1ms - 0.1ms after it.
    let mut s = Interval::new(at(10_000_000), ns(MS));
    s.align_with_clock(ns(8_500_000), at(10_000_000), None, None, 0);
    assert_eq!(s.wakeup_time(), at(11_500_000));
}

#[test]
fn align_adopts_new_interval_and_tolerance() {
    let mut s = Interval::new(at(0), ns(MS));
    s.align_with_clock(ns(8_500_000), at(10_000_000), Some(ns(2 * MS)), Some(ns(0)), 0);
    assert_eq!(s.wakeup_time(), at(11_500_000));
    assert_eq!(s.interval(), ns(2 * MS));
}

#[test]
fn align_small_negative_offset_stays_on_grid() {
    let mut s = Interval::new(at(0), ns(1000));
    s.align_with_clock(ns(0), at(5000), None, None, -1500);
    assert_eq!(s.wakeup_time(), at(5500));
}

#[test]
fn align_far_negative_offset_stays_on_grid() {
    let mut s = Interval::new(at(0), ns(1000));
    s.align_with_clock(ns(0), at(5000), None, None, -2500);
    assert_eq!(s.wakeup_time(), at(5500));
}

#[test]
fn align_offset_of_two_intervals_back() {
    // Grid k * 1000us - 2000us: the first point after the clock's 8500us is 9000us.
    let mut s = Interval::new(at(0), ns(MS));
    let now = at(10 * MS as i128);
    s.align_with_clock(ns(8_500_000), now, None, Some(ns(900_000)), -2_000_000);
    assert_eq!(s.wakeup_time(), at(10_500_000));
    assert_eq!(s.interval(), ns(MS));
}

#[test]
fn align_refuses_zero_interval_and_wide_tolerance() {
    let s = Interval::new(at(0), ns(0));
    assert!(!s.align_admissible(ns(0), at(0), None, None, 0));
    let s = Interval::new(at(0), ns(MS));
    assert!(!s.align_admissible(ns(0), at(0), None, Some(ns(MS)), 0));
    assert!(s.align_admissible(ns(0), at(0), None, Some(ns(MS - 1)), 0));
}

#[test]
fn align_with_extreme_offset() {
    let mut s = Interval::new(at(0), ns(MS));
    s.align_with_clock(ns(0), at(0), None, None, i64::MAX);
    assert_eq!(s.wakeup_time(), at(775_807 + MS as i128));
}

#[test]
fn align_refuses_instant_overflow() {
    let s = Interval::new(at(0), ns(MS));
    assert!(!s.align_admissible(ns(1), at(i128::MAX), None, None, 0));
}
