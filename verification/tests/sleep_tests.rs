use async_spin_sleep::builder::Builder;
use async_spin_sleep::driver::Driver;
use async_spin_sleep::report::Report;
use async_spin_sleep::sleep::{PollStep, SleepPhase, SleepTimer};
use async_spin_sleep::time::{Duration, Instant};

fn at(n: i128) -> Instant {
    Instant { nanos: n }
}

#[test]
fn expired_timer_is_reported_without_registering() {
    let mut t = SleepTimer::new(at(100));
    assert_eq!(t.poll(at(130)), PollStep::Ready(Report::ExpiredTimer(Duration { nanos: 30 })));
    assert_eq!(t.phase, SleepPhase::Pending);
    assert!(!t.leaves_garbage());
}

#[test]
fn sleep_registers_once_then_completes() {
    let mut t = SleepTimer::new(at(100));
    assert_eq!(t.poll(at(10)), PollStep::Register);
    assert_eq!(t.phase, SleepPhase::Sleeping);
    assert!(t.leaves_garbage());
    assert_eq!(t.poll(at(20)), PollStep::CheckWaker);
    assert_eq!(t.settle_early(at(20), false), None);
    assert_eq!(t.phase, SleepPhase::Sleeping);
    assert_eq!(t.poll(at(105)), PollStep::Ready(Report::Completed(Duration { nanos: 5 })));
    assert_eq!(t.phase, SleepPhase::Woken);
    assert_eq!(t.poll(at(110)), PollStep::Ready(Report::ExpiredTimer(Duration { nanos: 10 })));
    assert_eq!(t.poll(at(50)), PollStep::Wait);
}

#[test]
fn early_wakeup_completes_early() {
    let mut t = SleepTimer::new(at(100));
    assert_eq!(t.poll(at(0)), PollStep::Register);
    assert_eq!(t.poll(at(99)), PollStep::CheckWaker);
    assert_eq!(t.settle_early(at(99), true), Some(Report::CompletedEarly(Duration { nanos: 1 })));
    assert_eq!(t.phase, SleepPhase::Woken);
    assert!(t.leaves_garbage());
}

#[test]
fn poll_exactly_at_timeout_is_ready() {
    let mut t = SleepTimer::new(at(100));
    assert_eq!(t.poll(at(100)), PollStep::Ready(Report::ExpiredTimer(Duration { nanos: 0 })));
}

#[test]
fn driver_fired_sleep_is_under_a_microsecond_early() {
    // Deadline 10.9995us after the pivot; the driver's microsecond clock reaches 10 at 10.0us.
    let mut d = Driver::new(&Builder::new(Duration::from_millis(4)), at(0));
    let timeout = at(10_999);
    let id = d.insert(timeout);
    let fired_at = at(10_000);
    assert_eq!(d.try_fire(fired_at), Some(id));
    let mut t = SleepTimer::new(timeout);
    assert_eq!(t.poll(at(0)), PollStep::Register);
    assert_eq!(t.poll(fired_at), PollStep::CheckWaker);
    let r = t.settle_early(fired_at, true).unwrap();
    assert_eq!(r, Report::CompletedEarly(Duration { nanos: 999 }));
}
