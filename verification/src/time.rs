//! Time values of the library, held as plain nanosecond counts.
//!
//! `Duration` is a non-negative span of time. `Instant` is a point on a monotonic time line,
//! counted in nanoseconds from a fixed origin chosen by the process (points before the origin
//! are negative).
use vstd::prelude::*;

verus! {

/// A span of time, in nanoseconds.
#[derive(Clone, Copy, Debug, PartialEq, Eq, Structural, Hash)]
pub struct Duration {
    pub nanos: u128,
}

/// A point in time, in nanoseconds from the process's time origin.
#[derive(Clone, Copy, Debug, PartialEq, Eq, Structural, Hash)]
pub struct Instant {
    pub nanos: i128,
}

pub const NANOS_PER_MICRO: u128 = 1_000;

pub const NANOS_PER_MILLI: u128 = 1_000_000;

impl Duration {
    /// The empty span.
    pub fn zero() -> (d: Duration)
        ensures
            d.nanos == 0,
    {
        Duration { nanos: 0 }
    }

    pub fn from_nanos(nanos: u64) -> (d: Duration)
        ensures
            d.nanos == nanos,
    {
        Duration { nanos: nanos as u128 }
    }

    pub fn from_micros(micros: u64) -> (d: Duration)
        ensures
            d.nanos == micros * NANOS_PER_MICRO,
    {
        assert(micros * NANOS_PER_MICRO <= u128::MAX) by (nonlinear_arith)
            requires
                micros <= u64::MAX,
        ;
        Duration { nanos: micros as u128 * NANOS_PER_MICRO }
    }

    pub fn from_millis(millis: u64) -> (d: Duration)
        ensures
            d.nanos == millis * NANOS_PER_MILLI,
    {
        assert(millis * NANOS_PER_MILLI <= u128::MAX) by (nonlinear_arith)
            requires
                millis <= u64::MAX,
        ;
        Duration { nanos: millis as u128 * NANOS_PER_MILLI }
    }

    pub fn as_nanos(&self) -> (n: u128)
        ensures
            n == self.nanos,
    {
        self.nanos
    }

    /// Whole microseconds in the span, rounded down.
    pub fn as_micros(&self) -> (n: u128)
        ensures
            n == self.nanos / NANOS_PER_MICRO,
    {
        self.nanos / NANOS_PER_MICRO
    }

    pub fn is_zero(&self) -> (b: bool)
        ensures
            b == (self.nanos == 0),
    {
        self.nanos == 0
    }

    /// The span divided by `rhs`, rounded down to whole nanoseconds; `None` when `rhs` is zero.
    pub fn checked_div(&self, rhs: u32) -> (d: Option<Duration>)
        ensures
            rhs == 0 ==> d is None,
            rhs != 0 ==> d == Some(Duration { nanos: (self.nanos / (rhs as u128)) as u128 }),
    {
        if rhs == 0 {
            None
        } else {
            Some(Duration { nanos: self.nanos / (rhs as u128) })
        }
    }
}

/// The distance from `earlier` up to `later`, which needs the full unsigned range.
fn span_between(later: i128, earlier: i128) -> (n: u128)
    requires
        later >= earlier,
    ensures
        n == later - earlier,
{
    if earlier >= 0 || later < 0 {
        (later - earlier) as u128
    } else {
        let below: u128 = (-(earlier + 1)) as u128;
        later as u128 + below + 1
    }
}

impl Instant {
    /// The point `d` after `self`; `None` when it falls outside the representable range.
    pub fn checked_add(&self, d: Duration) -> (r: Option<Instant>)
        ensures
            self.nanos + d.nanos <= i128::MAX ==> r == Some(Instant { nanos: (self.nanos + d.nanos) as i128 }),
            self.nanos + d.nanos > i128::MAX ==> r is None,
    {
        let headroom: u128 = if self.nanos >= 0 {
            (i128::MAX - self.nanos) as u128
        } else {
            i128::MAX as u128 + (-(self.nanos + 1)) as u128 + 1
        };
        if d.nanos > headroom {
            None
        } else {
            Some(self.add(d))
        }
    }

    /// The point `d` after `self`.
    pub fn add(&self, d: Duration) -> (r: Instant)
        requires
            self.nanos + d.nanos <= i128::MAX,
        ensures
            r.nanos == self.nanos + d.nanos,
    {
        if d.nanos <= i128::MAX as u128 {
            Instant { nanos: self.nanos + d.nanos as i128 }
        } else {
            let rest: i128 = (d.nanos - i128::MAX as u128 - 1) as i128;
            Instant { nanos: (self.nanos + i128::MAX + 1) + rest }
        }
    }

    /// The point `d` before `self`; `None` when it falls outside the representable range.
    pub fn checked_sub(&self, d: Duration) -> (r: Option<Instant>)
        ensures
            self.nanos - d.nanos >= i128::MIN ==> r == Some(Instant { nanos: (self.nanos - d.nanos) as i128 }),
            self.nanos - d.nanos < i128::MIN ==> r is None,
    {
        let floor = Instant { nanos: i128::MIN };
        if span_between(self.nanos, floor.nanos) < d.nanos {
            None
        } else {
            Some(self.sub(d))
        }
    }

    /// The point `d` before `self`.
    pub fn sub(&self, d: Duration) -> (r: Instant)
        requires
            self.nanos - d.nanos >= i128::MIN,
        ensures
            r.nanos == self.nanos - d.nanos,
    {
        if d.nanos <= i128::MAX as u128 {
            Instant { nanos: self.nanos - d.nanos as i128 }
        } else {
            let rest: i128 = (d.nanos - i128::MAX as u128 - 1) as i128;
            Instant { nanos: (self.nanos - i128::MAX - 1) - rest }
        }
    }

    /// The span from `earlier` to `self`, or `None` when `earlier` is later than `self`.
    pub fn checked_duration_since(&self, earlier: Instant) -> (r: Option<Duration>)
        ensures
            self.nanos >= earlier.nanos ==> r == Some(Duration { nanos: (self.nanos - earlier.nanos) as u128 }),
            self.nanos < earlier.nanos ==> r is None,
    {
        if self.nanos >= earlier.nanos {
            Some(Duration { nanos: span_between(self.nanos, earlier.nanos) })
        } else {
            None
        }
    }

    /// The span from `earlier` to `self`, or zero when `earlier` is later than `self`.
    pub fn saturating_duration_since(&self, earlier: Instant) -> (r: Duration)
        ensures
            self.nanos >= earlier.nanos ==> r.nanos == self.nanos - earlier.nanos,
            self.nanos < earlier.nanos ==> r.nanos == 0,
    {
        if self.nanos >= earlier.nanos {
            Duration { nanos: span_between(self.nanos, earlier.nanos) }
        } else {
            Duration { nanos: 0 }
        }
    }
}

} // verus!
