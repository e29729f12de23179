//! Configuration of a timer driver.
use vstd::prelude::*;

use crate::time::Duration;

verus! {

/// Scheduling resolution, in milliseconds, that suits Linux: its timers are usually accurate to
/// about a millisecond, so four leave enough margin.
pub const LINUX_SCHEDULE_RESOLUTION_MS: u64 = 4;

/// Scheduling resolution, in milliseconds, that suits macOS: about three milliseconds were seen
/// to behave unsteadily, so more margin is given.
pub const MACOS_SCHEDULE_RESOLUTION_MS: u64 = 10;

/// Scheduling resolution, in milliseconds, for every other system, Windows among them, whose
/// timers are usually accurate to about sixteen milliseconds.
pub const FALLBACK_SCHEDULE_RESOLUTION_MS: u64 = 33;

/// How many aborted timers may wait in the driver's queue before it collects them.
pub const DEFAULT_GC_THRESHOLD: usize = 1000;

/// Configuration of a timer driver and of the handles that talk to it.
#[derive(Debug)]
#[non_exhaustive]
pub struct Builder {
    /// Default scheduling resolution for this driver. Setting this to a lower value may decrease
    /// CPU usage of the driver, but may also dangerously increase the chance of missing a wakeup
    /// event due to the OS scheduler.
    pub schedule_resolution: Duration,
    /// Aborted nodes that are too far from execution may remain in the driver's memory for a long
    /// time. This value specifies the maximum number of aborted nodes that can be stored in the
    /// driver's memory. If this value is exceeded, the driver will collect garbage.
    pub gc_threshold: usize,
    /// Channel capacity between the handles and the driver; `None` for an unbounded channel.
    pub channel_capacity: Option<usize>,
    /// Determines the number of yields per poll of the request channel while spinning. Zero is
    /// treated as one.
    pub yields_per_spin: usize,
}

impl Builder {
    /// A configuration with the given scheduling resolution and the default for everything
    /// else: a garbage threshold of `DEFAULT_GC_THRESHOLD`, an unbounded channel and one yield
    /// per poll.
    pub fn new(schedule_resolution: Duration) -> (b: Builder)
        ensures
            b.schedule_resolution == schedule_resolution,
            b.gc_threshold == DEFAULT_GC_THRESHOLD,
            b.channel_capacity is None,
            b.yields_per_spin == 1,
    {
        Builder { schedule_resolution, gc_threshold: DEFAULT_GC_THRESHOLD, channel_capacity: None, yields_per_spin: 1 }
    }

    pub fn with_schedule_resolution(self, schedule_resolution: Duration) -> (b: Builder)
        ensures
            b == (Builder { schedule_resolution, ..self }),
    {
        Builder { schedule_resolution, ..self }
    }

    pub fn with_gc_threshold(self, gc_threshold: usize) -> (b: Builder)
        ensures
            b == (Builder { gc_threshold, ..self }),
    {
        Builder { gc_threshold, ..self }
    }

    /// Sets the channel capacity: `Some` capacity, or `None` for an unbounded channel.
    pub fn with_channel_capacity(self, channel_capacity: Option<usize>) -> (b: Builder)
        ensures
            b == (Builder { channel_capacity, ..self }),
    {
        Builder { channel_capacity, ..self }
    }

    pub fn with_yields_per_spin(self, yields_per_spin: usize) -> (b: Builder)
        ensures
            b == (Builder { yields_per_spin, ..self }),
    {
        Builder { yields_per_spin, ..self }
    }
}

} // verus!
