//! What a finished sleep reports.
use vstd::prelude::*;

use crate::time::Duration;

verus! {

/// How a sleep ended.
#[derive(Clone, Copy, Debug, PartialEq, Eq, Structural, Hash)]
pub enum Report {
    /// Timer has been correctly requested, and woke up normally. Returned value is overslept
    /// duration than the requested timeout.
    Completed(Duration),
    /// Timer has not been requested as the timeout is already expired.
    ExpiredTimer(Duration),
    /// We woke up a bit earlier than required; the value is how much earlier.
    CompletedEarly(Duration),
}

impl Report {
    /// How long the sleeper overslept its timeout; zero for an early wake-up.
    pub open spec fn spec_overslept(self) -> Duration {
        match self {
            Report::Completed(d) => d,
            Report::ExpiredTimer(d) => d,
            Report::CompletedEarly(_) => Duration { nanos: 0 },
        }
    }

    /// Returns how long the timer overslept the required duration.
    pub fn overslept(&self) -> (d: Duration)
        ensures
            d == self.spec_overslept(),
    {
        match self {
            Report::Completed(dur) => *dur,
            Report::ExpiredTimer(dur) => *dur,
            Report::CompletedEarly(_) => Duration::zero(),
        }
    }

    /// Returns true if the timer woke up earlier than the required duration.
    pub fn is_woke_up_early(&self) -> (b: bool)
        ensures
            b == (*self is CompletedEarly),
            b ==> self.spec_overslept().nanos == 0,
    {
        match self {
            Report::CompletedEarly(_) => true,
            _ => false,
        }
    }

    /// Returns the report itself, so that code written against a fallible result
    /// reads the same.
    pub fn unwrap(self) -> (r: Self)
        ensures
            r == self,
    {
        self
    }

    /// Returns the report wrapped in `Some`, so that code written against a fallible
    /// result reads the same.
    pub fn ok(self) -> (r: Option<Self>)
        ensures
            r == Some(self),
    {
        Some(self)
    }
}

} // verus!
