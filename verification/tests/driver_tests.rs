use std::collections::HashSet;

use async_spin_sleep::builder::Builder;
use async_spin_sleep::driver::{AfterReceive, Driver, Received, Wait};
use async_spin_sleep::time::{Duration, Instant};

fn at_us(us: i128) -> Instant {
    Instant { nanos: us * 1000 }
}

fn driver(resolution_ms: u64) -> Driver {
    Driver::new(&Builder::new(Duration::from_millis(resolution_ms)), Instant { nanos: 0 })
}

#[test]
fn timers_fire_earliest_first() {
    let mut d = driver(4);
    let a = d.insert(at_us(3000));
    let b = d.insert(at_us(1000));
    let c = d.insert(at_us(2000));
    assert_eq!((a, b, c), (0, 1, 2));
    let now = at_us(5000);
    assert_eq!(d.try_fire(now), Some(b));
    assert_eq!(d.try_fire(now), Some(c));
    assert_eq!(d.try_fire(now), Some(a));
    assert_eq!(d.try_fire(now), None);
    assert!(d.is_empty());
}

#[test]
fn no_timer_fires_before_its_deadline() {
    let mut d = driver(4);
    let id = d.insert(at_us(1000));
    assert_eq!(d.try_fire(at_us(999)), None);
    assert_eq!(d.len(), 1);
    assert_eq!(d.try_fire(at_us(1000)), Some(id));
}

#[test]
fn equal_deadlines_fire_greater_id_first() {
    let mut d = driver(4);
    let a = d.insert(at_us(10));
    let b = d.insert(at_us(10));
    assert_eq!(d.try_fire(at_us(10)), Some(b));
    assert_eq!(d.try_fire(at_us(10)), Some(a));
}

#[test]
fn empty_driver_waits_for_a_request() {
    let d = driver(4);
    assert_eq!(d.next_wait(at_us(0)), Wait::Request);
}

#[test]
fn far_timer_waits_until_a_resolution_before_it() {
    let mut d = driver(4);
    d.insert(at_us(10_000));
    assert_eq!(d.next_wait(at_us(0)), Wait::RequestUntil(at_us(6_000)));
    assert_eq!(d.next_wait(at_us(1_500)), Wait::RequestUntil(at_us(6_000)));
}

#[test]
fn near_or_past_timer_spins() {
    let mut d = driver(4);
    d.insert(at_us(10_000));
    assert_eq!(d.next_wait(at_us(6_000)), Wait::Spin);
    assert_eq!(d.next_wait(at_us(7_000)), Wait::Spin);
    assert_eq!(d.next_wait(at_us(20_000)), Wait::Spin);
}

#[test]
fn instants_before_the_pivot_count_as_zero() {
    let d = Driver::new(&Builder::new(Duration::from_millis(4)), at_us(100));
    assert_eq!(d.to_usec(at_us(50)), 0);
    assert_eq!(d.to_usec(at_us(150)), 50);
    assert_eq!(d.to_usec(Instant { nanos: 100_999 }), 0);
}

#[test]
fn collect_removes_exactly_the_dead_timers() {
    let mut d = driver(4);
    let a = d.insert(at_us(100));
    let b = d.insert(at_us(200));
    let c = d.insert(at_us(300));
    let dead: HashSet<u64> = [a, c, 77].into_iter().collect();
    assert_eq!(d.collect(&dead), 2);
    assert_eq!(d.len(), 1);
    assert_eq!(d.try_fire(at_us(1000)), Some(b));
    assert!(d.is_empty());
}

#[test]
fn collect_with_nothing_dead_keeps_everything() {
    let mut d = driver(4);
    d.insert(at_us(100));
    d.insert(at_us(200));
    assert_eq!(d.collect(&HashSet::new()), 0);
    assert_eq!(d.len(), 2);
}

#[test]
fn garbage_thresholds() {
    let d = Driver::new(&Builder::new(Duration::from_millis(4)).with_gc_threshold(1000), Instant { nanos: 0 });
    assert!(d.collects_after_fire(1001));
    assert!(!d.collects_after_fire(1000));
    assert!(!d.collects_after_fire(-3));
    assert!(d.collects_on_request(1001));
    assert!(!d.collects_on_request(1000));
    assert!(!d.collects_on_request(-1));
}

#[test]
fn huge_threshold_reads_as_negative() {
    let d = Driver::new(&Builder::new(Duration::from_millis(4)).with_gc_threshold(usize::MAX), Instant { nanos: 0 });
    assert!(d.collects_after_fire(0));
    assert!(d.collects_on_request(0));
}

#[test]
fn channel_is_polled_every_yields_per_spin_turns() {
    let d = Driver::new(&Builder::new(Duration::from_millis(4)).with_yields_per_spin(3), Instant { nanos: 0 });
    assert!(d.poll_due(0));
    assert!(!d.poll_due(1));
    assert!(!d.poll_due(2));
    assert!(d.poll_due(3));
}

#[test]
fn zero_yields_per_spin_polls_every_turn() {
    let d = Driver::new(&Builder::new(Duration::from_millis(4)).with_yields_per_spin(0), Instant { nanos: 0 });
    assert!(d.poll_due(0));
    assert!(d.poll_due(1));
    assert!(d.poll_due(7));
}

#[test]
fn resolution_is_counted_in_whole_microseconds() {
    let mut d = Driver::new(&Builder::new(Duration { nanos: 1_999 }), Instant { nanos: 0 });
    d.insert(at_us(10));
    assert_eq!(d.next_wait(at_us(0)), Wait::RequestUntil(at_us(9)));
}

#[test]
fn planning_range() {
    assert!(Driver::is_plannable(Instant { nanos: 0 }));
    assert!(!Driver::is_plannable(Instant { nanos: i128::MAX }));
    let d = driver(4);
    assert!(!d.ids_exhausted());
}

#[test]
fn driver_exits_only_when_disconnected_and_idle() {
    let mut d = driver(4);
    assert_eq!(d.on_receive(Received::Request), AfterReceive::Take);
    assert_eq!(d.on_receive(Received::Empty), AfterReceive::Continue);
    assert_eq!(d.on_receive(Received::Disconnected), AfterReceive::Exit);
    let id = d.insert(at_us(10));
    assert_eq!(d.on_receive(Received::Disconnected), AfterReceive::Continue);
    assert_eq!(d.try_fire(at_us(10)), Some(id));
    assert_eq!(d.on_receive(Received::Disconnected), AfterReceive::Exit);
}

#[test]
fn ids_stay_distinct_across_collect_and_fire() {
    let mut d = driver(4);
    let a = d.insert(at_us(5));
    let b = d.insert(at_us(5));
    let dead: HashSet<u64> = [a].into_iter().collect();
    assert_eq!(d.collect(&dead), 1);
    let c = d.insert(at_us(5));
    assert!(a != b && b != c && a != c);
    assert_eq!(d.try_fire(at_us(5)), Some(c));
    assert_eq!(d.try_fire(at_us(5)), Some(b));
}
