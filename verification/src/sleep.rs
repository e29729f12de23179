//! The state machine of a sleep future.
//!
//! A sleep future is polled by an executor. The first poll before the timeout registers a timer
//! with the driver; the driver later wakes the future, and the next poll reports how the sleep
//! ended. The task context, the waker and the channel stay with the caller; the decisions are
//! here.
use vstd::prelude::*;

use crate::driver::{rank_of, timeout_of, usec_since};
use crate::report::Report;
use crate::time::{Duration, Instant};

verus! {

/// Where a sleep stands.
#[derive(Clone, Copy, Debug, PartialEq, Eq, Structural)]
pub enum SleepPhase {
    /// No timer has been registered yet.
    Pending,
    /// A timer is registered with the driver.
    Sleeping,
    /// The sleep has completed after waiting on its timer.
    Woken,
}

/// What the caller of `SleepTimer::poll` does next.
#[derive(Clone, Copy, Debug, PartialEq, Eq, Structural)]
pub enum PollStep {
    /// The sleep is over: return this report.
    Ready(Report),
    /// Send a timer request to the driver, then return pending.
    Register,
    /// Check whether the driver has already taken the waker, and pass the answer to
    /// `SleepTimer::settle_early`.
    CheckWaker,
    /// Return pending.
    Wait,
}

/// A sleep until `timeout`.
pub struct SleepTimer {
    pub timeout: Instant,
    pub phase: SleepPhase,
}

impl SleepTimer {
    /// What `poll` decides at `now`, and the phase it leaves.
    pub open spec fn spec_poll(self, now: Instant) -> (PollStep, SleepPhase) {
        if now.nanos >= self.timeout.nanos {
            let over = Duration { nanos: (now.nanos - self.timeout.nanos) as u128 };
            if self.phase == SleepPhase::Sleeping {
                (PollStep::Ready(Report::Completed(over)), SleepPhase::Woken)
            } else {
                (PollStep::Ready(Report::ExpiredTimer(over)), self.phase)
            }
        } else {
            match self.phase {
                SleepPhase::Pending => (PollStep::Register, SleepPhase::Sleeping),
                SleepPhase::Sleeping => (PollStep::CheckWaker, SleepPhase::Sleeping),
                SleepPhase::Woken => (PollStep::Wait, SleepPhase::Woken),
            }
        }
    }

    /// A sleep until `timeout` that has not registered a timer yet.
    pub fn new(timeout: Instant) -> (s: SleepTimer)
        ensures
            s.timeout == timeout,
            s.phase == SleepPhase::Pending,
    {
        SleepTimer { timeout, phase: SleepPhase::Pending }
    }

    /// Polls the sleep at `now`. Once the timeout has passed the sleep is ready: `Completed` if
    /// it had registered a timer, `ExpiredTimer` otherwise, with how far `now` is past the
    /// timeout. Before the timeout, an unregistered sleep registers, a registered one checks
    /// whether the driver has woken it early, and a completed one waits.
    pub fn poll(&mut self, now: Instant) -> (step: PollStep)
        ensures
            (step, final(self).phase) == old(self).spec_poll(now),
            final(self).timeout == old(self).timeout,
    {
        match now.checked_duration_since(self.timeout) {
            Some(over) => {
                if self.phase == SleepPhase::Sleeping {
                    self.phase = SleepPhase::Woken;
                    PollStep::Ready(Report::Completed(over))
                } else {
                    PollStep::Ready(Report::ExpiredTimer(over))
                }
            },
            None => match self.phase {
                SleepPhase::Pending => {
                    self.phase = SleepPhase::Sleeping;
                    PollStep::Register
                },
                SleepPhase::Sleeping => PollStep::CheckWaker,
                SleepPhase::Woken => PollStep::Wait,
            },
        }
    }

    /// Settles a registered sleep that was polled before its timeout, given whether the driver
    /// had already taken its waker. If it had, the driver fired early (the clocks disagree):
    /// the sleep completes early by how much `now` falls short of the timeout. Otherwise the
    /// wake-up was spurious and the sleep keeps waiting.
    pub fn settle_early(&mut self, now: Instant, waker_taken: bool) -> (r: Option<Report>)
        requires
            old(self).phase == SleepPhase::Sleeping,
            now.nanos < old(self).timeout.nanos,
        ensures
            final(self).timeout == old(self).timeout,
            waker_taken ==> r == Some(
                Report::CompletedEarly(Duration { nanos: (old(self).timeout.nanos - now.nanos) as u128 }),
            ) && final(self).phase == SleepPhase::Woken,
            !waker_taken ==> r is None && final(self).phase == SleepPhase::Sleeping,
    {
        if waker_taken {
            self.phase = SleepPhase::Woken;
            Some(Report::CompletedEarly(self.timeout.saturating_duration_since(now)))
        } else {
            None
        }
    }

    /// Whether dropping the sleep leaves garbage in the driver's queue: true once a timer was
    /// registered.
    pub fn leaves_garbage(&self) -> (b: bool)
        ensures
            b == (self.phase != SleepPhase::Pending),
    {
        self.phase != SleepPhase::Pending
    }
}


/// A sleep asks the driver for a timer at most once: once it has registered, no poll registers
/// again and it never returns to the unregistered phase.
pub proof fn lemma_registered_sleep_never_registers_again(t: SleepTimer, now: Instant)
    requires
        t.phase != SleepPhase::Pending,
    ensures
        t.spec_poll(now).0 != PollStep::Register,
        t.spec_poll(now).1 != SleepPhase::Pending,
{
}

/// A poll that registers a timer leaves the sleep registered.
pub proof fn lemma_register_leaves_sleep_registered(t: SleepTimer, now: Instant)
    requires
        t.spec_poll(now).0 == PollStep::Register,
    ensures
        t.phase == SleepPhase::Pending,
        t.spec_poll(now).1 == SleepPhase::Sleeping,
{
}


/// A sleep is over only once its timeout has passed: `Completed` and `ExpiredTimer` come only
/// from polls at or after the timeout, with how far past it they are.
pub proof fn lemma_ready_only_after_timeout(t: SleepTimer, now: Instant)
    requires
        t.spec_poll(now).0 is Ready,
    ensures
        now.nanos >= t.timeout.nanos,
        t.spec_poll(now).0->Ready_0.spec_overslept().nanos == now.nanos - t.timeout.nanos,
{
}


/// A sleep woken early by the driver completes less than a microsecond early. The driver queues
/// a timer under `rank_of` of its deadline in microseconds since its pivot, and `try_fire` fires
/// it only once its own microsecond clock has reached that deadline; a poll at or after the
/// firing therefore falls short of the timeout by under 1000 nanoseconds, and that shortfall is
/// what `settle_early` reports.
pub proof fn lemma_early_completion_under_a_microsecond(
    pivot: Instant,
    timeout: Instant,
    id: u64,
    fired_at: Instant,
    now: Instant,
)
    requires
        timeout.nanos >= pivot.nanos,
        (timeout.nanos - pivot.nanos) / 1000 <= u64::MAX,
        fired_at.nanos >= pivot.nanos,
        (fired_at.nanos - pivot.nanos) / 1000 <= u64::MAX,
        usec_since(pivot, fired_at) >= timeout_of((rank_of(usec_since(pivot, timeout)), id)),
        now.nanos >= fired_at.nanos,
        now.nanos < timeout.nanos,
    ensures
        timeout.nanos - now.nanos < 1000,
{
    let t = timeout.nanos - pivot.nanos;
    let f = fired_at.nanos - pivot.nanos;
    assert(timeout_of((rank_of(usec_since(pivot, timeout)), id)) == t / 1000);
    assert(f / 1000 >= t / 1000);
    assert(t - f < 1000) by (nonlinear_arith)
        requires
            f / 1000 >= t / 1000,
            f >= 0,
            t >= 0,
    ;
}

} // verus!
