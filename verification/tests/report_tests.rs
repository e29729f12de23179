use async_spin_sleep::report::Report;
use async_spin_sleep::time::Duration;

fn ns(n: u128) -> Duration {
    Duration { nanos: n }
}

#[test]
fn overslept_of_completed_is_its_duration() {
    assert_eq!(Report::Completed(ns(1_500)).overslept(), ns(1_500));
}

#[test]
fn overslept_of_expired_timer_is_its_duration() {
    assert_eq!(Report::ExpiredTimer(ns(42)).overslept(), ns(42));
}

#[test]
fn early_wakeup_overslept_nothing() {
    let r = Report::CompletedEarly(ns(300));
    assert!(r.is_woke_up_early());
    assert_eq!(r.overslept(), ns(0));
}

#[test]
fn only_early_reports_are_early() {
    assert!(!Report::Completed(ns(1)).is_woke_up_early());
    assert!(!Report::ExpiredTimer(ns(1)).is_woke_up_early());
}

#[test]
fn unwrap_and_ok_keep_the_report() {
    let r = Report::ExpiredTimer(ns(7));
    assert_eq!(r.unwrap(), r);
    assert_eq!(r.ok(), Some(r));
}
