use async_spin_sleep::time::{Duration, Instant};

#[test]
fn duration_units() {
    assert_eq!(Duration::from_micros(3).nanos, 3_000);
    assert_eq!(Duration::from_millis(4).nanos, 4_000_000);
    assert_eq!(Duration::from_nanos(9).as_nanos(), 9);
    assert_eq!(Duration::from_nanos(2_999).as_micros(), 2);
    assert!(Duration::zero().is_zero());
}

#[test]
fn duration_division() {
    assert_eq!(Duration::from_nanos(7).checked_div(2), Some(Duration { nanos: 3 }));
    assert_eq!(Duration::from_nanos(7).checked_div(0), None);
}

#[test]
fn instant_arithmetic() {
    let t = Instant { nanos: -5 };
    assert_eq!(t.add(Duration { nanos: 10 }), Instant { nanos: 5 });
    assert_eq!(t.sub(Duration { nanos: 10 }), Instant { nanos: -15 });
    assert_eq!(Instant { nanos: 5 }.checked_duration_since(t), Some(Duration { nanos: 10 }));
    assert_eq!(t.checked_duration_since(Instant { nanos: 5 }), None);
    assert_eq!(t.saturating_duration_since(Instant { nanos: 5 }), Duration { nanos: 0 });
}

#[test]
fn instant_range_edges() {
    let low = Instant { nanos: i128::MIN };
    let high = Instant { nanos: i128::MAX };
    assert_eq!(low.checked_add(Duration { nanos: u128::MAX }), Some(high));
    assert_eq!(high.checked_add(Duration { nanos: 1 }), None);
    assert_eq!(high.sub(Duration { nanos: u128::MAX }), low);
    assert_eq!(high.checked_sub(Duration { nanos: u128::MAX }), Some(low));
    assert_eq!(Instant { nanos: 0 }.checked_sub(Duration { nanos: u128::MAX }), None);
    assert_eq!(Instant { nanos: 3 }.checked_sub(Duration { nanos: 5 }), Some(Instant { nanos: -2 }));
    assert_eq!(high.checked_duration_since(low), Some(Duration { nanos: u128::MAX }));
    assert_eq!(Instant { nanos: -1 }.checked_add(Duration { nanos: u128::MAX }), None);
}
