use async_spin_sleep::builder::{Builder, DEFAULT_GC_THRESHOLD, LINUX_SCHEDULE_RESOLUTION_MS};
use async_spin_sleep::time::Duration;

#[test]
fn new_builder_takes_defaults() {
    let b = Builder::new(Duration::from_millis(LINUX_SCHEDULE_RESOLUTION_MS));
    assert_eq!(b.schedule_resolution, Duration { nanos: 4_000_000 });
    assert_eq!(b.gc_threshold, DEFAULT_GC_THRESHOLD);
    assert_eq!(b.gc_threshold, 1000);
    assert_eq!(b.channel_capacity, None);
    assert_eq!(b.yields_per_spin, 1);
}

#[test]
fn setters_change_one_field() {
    let b = Builder::new(Duration::from_millis(4))
        .with_gc_threshold(5)
        .with_channel_capacity(Some(50))
        .with_yields_per_spin(3)
        .with_schedule_resolution(Duration::from_millis(10));
    assert_eq!(b.schedule_resolution, Duration { nanos: 10_000_000 });
    assert_eq!(b.gc_threshold, 5);
    assert_eq!(b.channel_capacity, Some(50));
    assert_eq!(b.yields_per_spin, 3);
}

#[test]
fn channel_capacity_can_be_set_and_cleared() {
    let b = Builder::new(Duration::from_millis(4)).with_channel_capacity(Some(50));
    assert_eq!(b.channel_capacity, Some(50));
    let b = b.with_channel_capacity(None);
    assert_eq!(b.channel_capacity, None);
}
