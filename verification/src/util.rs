//! The schedule of an interval timer: when it next wakes up and how far apart its ticks are.
use vstd::prelude::*;

use crate::time::{Duration, Instant};

verus! {

/// How long after the clock reading `dst` the next point of the grid `k * iv + off` comes: the
/// distance from `dst` up to the first such point not before it, `(off - dst) mod iv`.
pub open spec fn align_delay(dst: int, iv: int, off: int) -> int {
    (off - dst) % iv
}

/// The `k`-th point of the grid that starts at `start` with spacing `step`.
pub open spec fn grid_point(start: int, step: int, k: int) -> int {
    start + k * step
}

/// The tolerance used when none is given: a tenth of the interval.
pub open spec fn default_tolerance(i: Duration) -> Duration {
    Duration { nanos: i.nanos / 10 }
}

/// Computes `align_delay` for a positive interval.
fn align_delay_exec(dst: u128, iv: u128, off: i64) -> (r: u128)
    requires
        iv > 0,
    ensures
        r == align_delay(dst as int, iv as int, off as int),
        r < iv,
{
    let dm = dst % iv;
    let om: u128 = if off >= 0 {
        (off as u128) % iv
    } else {
        let m = ((-(off as i128)) as u128) % iv;
        if m == 0 {
            0
        } else {
            iv - m
        }
    };
    let r = if om >= dm {
        om - dm
    } else {
        iv - (dm - om)
    };
    proof {
        let d = dst as int;
        let o = off as int;
        let n = iv as int;
        vstd::arithmetic::div_mod::lemma_fundamental_div_mod(d, n);
        // om is o reduced into [0, n): o == n * qo + om.
        let qo: int;
        if o >= 0 {
            vstd::arithmetic::div_mod::lemma_fundamental_div_mod(o, n);
            qo = o / n;
            assert(o == n * qo + om);
        } else {
            vstd::arithmetic::div_mod::lemma_fundamental_div_mod(-o, n);
            if (-o) % n == 0 {
                qo = -((-o) / n);
                assert(o == n * qo + om) by (nonlinear_arith)
                    requires
                        -o == n * ((-o) / n) + (-o) % n,
                        (-o) % n == 0,
                        qo == -((-o) / n),
                        om == 0,
                ;
            } else {
                qo = -((-o) / n) - 1;
                assert(o == n * qo + om) by (nonlinear_arith)
                    requires
                        -o == n * ((-o) / n) + (-o) % n,
                        qo == -((-o) / n) - 1,
                        om == n - (-o) % n,
                ;
            }
        }
        let q: int = if om >= dm { qo - d / n } else { qo - d / n - 1 };
        assert(o - d == q * n + r) by (nonlinear_arith)
            requires
                o == n * qo + om,
                d == n * (d / n) + dm,
                om >= dm ==> r == om - dm,
                om < dm ==> r == n - (dm - om),
                q == if om >= dm { qo - d / n } else { qo - d / n - 1 },
        ;
        vstd::arithmetic::div_mod::lemma_fundamental_div_mod_converse(o - d, n, q, r as int);
    }
    r
}

/// Interval controller: the schedule of a periodic wake-up.
#[derive(Clone, Copy, Debug)]
pub struct Interval {
    wakeup_time: Instant,
    interval: Duration,
}

impl Interval {
    /// When the next tick is due.
    pub closed spec fn spec_wakeup_time(self) -> Instant {
        self.wakeup_time
    }

    /// How far apart the ticks are.
    pub closed spec fn spec_interval(self) -> Duration {
        self.interval
    }

    /// The interval that `align_with_clock` adopts.
    pub open spec fn chosen_interval(self, interval: Option<Duration>) -> Duration {
        match interval {
            Some(i) => i,
            None => self.spec_interval(),
        }
    }

    /// The tolerance that `align_with_clock` applies to the interval `i`.
    pub open spec fn chosen_tolerance(i: Duration, initial_interval_tolerance: Option<Duration>) -> Duration {
        match initial_interval_tolerance {
            Some(t) => t,
            None => default_tolerance(i),
        }
    }

    /// The schedule `align_with_clock` sets, as `(wakeup time, interval)`, or `None` on the
    /// inputs on which it panics: a zero interval, a tolerance not below the interval, or an
    /// instant out of range. The tick goes to the first point of the grid `k * interval +
    /// align_offset_ns` on the clock that reads `epoch_now` at `inst_now`, and one interval
    /// later when it would come sooner after the previous tick than the interval less the
    /// tolerance.
    pub open spec fn align_outcome(
        self,
        epoch_now: Duration,
        inst_now: Instant,
        interval: Option<Duration>,
        initial_interval_tolerance: Option<Duration>,
        align_offset_ns: i64,
    ) -> Option<(Instant, Duration)> {
        let i = self.chosen_interval(interval);
        let tol = Self::chosen_tolerance(i, initial_interval_tolerance);
        let prev = self.spec_wakeup_time().nanos - self.spec_interval().nanos;
        if prev < i128::MIN || i.nanos == 0 || tol.nanos >= i.nanos {
            None
        } else {
            let desired = inst_now.nanos + align_delay(epoch_now.nanos as int, i.nanos as int, align_offset_ns as int);
            let earliest = prev + i.nanos - tol.nanos;
            if desired > i128::MAX || prev + i.nanos > i128::MAX || earliest < i128::MIN {
                None
            } else if desired < earliest {
                if desired + i.nanos > i128::MAX {
                    None
                } else {
                    Some((Instant { nanos: (desired + i.nanos) as i128 }, i))
                }
            } else {
                Some((Instant { nanos: desired as i128 }, i))
            }
        }
    }

    /// How far past one interval on `advance` moves the wake-up time, before the step is kept
    /// to 64 bits: zero when one interval on is at least `minimum_interval` after `now`, and
    /// otherwise the fewest whole intervals that reach that far.
    pub open spec fn advance_step(self, now: Instant, minimum_interval: Duration) -> int {
        let w1 = self.spec_wakeup_time().nanos + self.spec_interval().nanos;
        let m = now.nanos + minimum_interval.nanos;
        let i = self.spec_interval().nanos as int;
        if m > w1 {
            i * ((m - w1 - 1) / i + 1)
        } else {
            0
        }
    }

    /// The wake-up time after a tick at `now`: one interval later, and then the step, kept to
    /// its low 64 bits as the `u64` nanosecond count it passes through.
    pub open spec fn advanced_wakeup(self, now: Instant, minimum_interval: Duration) -> int {
        self.spec_wakeup_time().nanos + self.spec_interval().nanos + (self.advance_step(
            now,
            minimum_interval,
        ) as u64)
    }

    /// `advance` does not panic at `now`.
    pub open spec fn can_advance(self, now: Instant, minimum_interval: Duration) -> bool {
        let w1 = self.spec_wakeup_time().nanos + self.spec_interval().nanos;
        let m = now.nanos + minimum_interval.nanos;
        let i = self.spec_interval().nanos as int;
        &&& minimum_interval.nanos <= i
        &&& w1 <= i128::MAX
        &&& m <= i128::MAX
        &&& m > w1 ==> i > 0 && self.advance_step(now, minimum_interval) <= u128::MAX
            && self.advanced_wakeup(now, minimum_interval) <= i128::MAX
    }

    /// A schedule whose first tick is `interval` after `now`.
    pub fn new(now: Instant, interval: Duration) -> (s: Interval)
        requires
            now.nanos + interval.nanos <= i128::MAX,
        ensures
            s.spec_wakeup_time().nanos == now.nanos + interval.nanos,
            s.spec_interval() == interval,
    {
        Interval { wakeup_time: now.add(interval), interval }
    }

    pub fn interval(&self) -> (d: Duration)
        ensures
            d == self.spec_interval(),
    {
        self.interval
    }

    pub fn wakeup_time(&self) -> (t: Instant)
        ensures
            t == self.spec_wakeup_time(),
    {
        self.wakeup_time
    }

    /// Reset interval to the specified duration: the next tick comes `interval` after the
    /// previous one.
    pub fn set_interval(&mut self, interval: Duration)
        requires
            interval.nanos > 0,
            old(self).spec_wakeup_time().nanos - old(self).spec_interval().nanos >= i128::MIN,
            old(self).spec_wakeup_time().nanos - old(self).spec_interval().nanos + interval.nanos
                <= i128::MAX,
        ensures
            final(self).spec_wakeup_time().nanos == old(self).spec_wakeup_time().nanos - old(
                self,
            ).spec_interval().nanos + interval.nanos,
            final(self).spec_interval() == interval,
            final(self).spec_wakeup_time().nanos - final(self).spec_interval().nanos == old(
                self,
            ).spec_wakeup_time().nanos - old(self).spec_interval().nanos,
    {
        self.wakeup_time = self.wakeup_time.sub(self.interval);
        self.wakeup_time = self.wakeup_time.add(interval);
        self.interval = interval;
    }

    /// Whether `set_interval` may be called with `interval`: it is positive and the new wake-up
    /// time is representable.
    pub fn set_interval_admissible(&self, interval: Duration) -> (b: bool)
        ensures
            b == (interval.nanos > 0 && self.spec_wakeup_time().nanos - self.spec_interval().nanos
                >= i128::MIN && self.spec_wakeup_time().nanos - self.spec_interval().nanos
                + interval.nanos <= i128::MAX),
    {
        if interval.nanos == 0 {
            return false;
        }
        match self.wakeup_time.checked_sub(self.interval) {
            Some(prev_trig) => prev_trig.checked_add(interval).is_some(),
            None => false,
        }
    }

    /// Whether `advance` may be called at `now`.
    pub fn advance_admissible(&self, now: Instant, minimum_interval: Duration) -> (b: bool)
        ensures
            b == self.can_advance(now, minimum_interval),
    {
        if minimum_interval.nanos > self.interval.nanos {
            return false;
        }
        let w1 = match self.wakeup_time.checked_add(self.interval) {
            Some(w) => w,
            None => return false,
        };
        let m = match now.checked_add(minimum_interval) {
            Some(m) => m,
            None => return false,
        };
        if m.nanos > w1.nanos {
            let i = self.interval.nanos;
            if i == 0 {
                return false;
            }
            let gap = m.checked_duration_since(w1).unwrap().nanos;
            let k = (gap - 1) / i + 1;
            match i.checked_mul(k) {
                None => false,
                Some(step) => w1.checked_add(Duration { nanos: step as u64 as u128 }).is_some(),
            }
        } else {
            true
        }
    }

    /// The schedule after the tick due at the wake-up time ended at `now`: the wake-up time
    /// moves one interval on, and further along the same grid when that would come sooner than
    /// `minimum_interval` after `now`, so that a long stall causes no burst of ticks.
    pub fn advance(&mut self, now: Instant, minimum_interval: Duration)
        requires
            old(self).can_advance(now, minimum_interval),
        ensures
            final(self).spec_wakeup_time().nanos == old(self).advanced_wakeup(now, minimum_interval),
            final(self).spec_interval() == old(self).spec_interval(),
            old(self).spec_interval().nanos > 0 && now.nanos + minimum_interval.nanos - old(
                self,
            ).spec_wakeup_time().nanos <= u64::MAX ==> {
                let w = old(self).spec_wakeup_time().nanos;
                let i = old(self).spec_interval().nanos as int;
                let w2 = final(self).spec_wakeup_time().nanos;
                let m = now.nanos + minimum_interval.nanos;
                &&& w2 >= m
                &&& w2 - w >= i
                &&& (w2 - w) % i == 0
                &&& forall|k: int| k >= 1 && #[trigger] grid_point(w as int, i, k) >= m ==> w2 <= grid_point(w as int, i, k)
            },
    {
        proof {
            if self.interval.nanos > 0 && now.nanos + minimum_interval.nanos - self.wakeup_time.nanos
                <= u64::MAX {
                lemma_advance_next_tick_is_first_far_enough(*self, now, minimum_interval);
            }
        }
        self.wakeup_time = self.wakeup_time.add(self.interval);
        let minimum_next = now.add(minimum_interval);
        if minimum_next.nanos > self.wakeup_time.nanos {
            let interval_ns = self.interval.as_nanos();
            let gap = minimum_next.checked_duration_since(self.wakeup_time).unwrap();
            let num_ticks = (gap.as_nanos() - 1) / interval_ns + 1;
            let step = (interval_ns * num_ticks) as u64;
            self.wakeup_time = self.wakeup_time.add(Duration::from_nanos(step));
        }
    }

    /// Computes `align_outcome`.
    fn align_outcome_exec(
        &self,
        epoch_now: Duration,
        inst_now: Instant,
        interval: Option<Duration>,
        initial_interval_tolerance: Option<Duration>,
        align_offset_ns: i64,
    ) -> (r: Option<(Instant, Duration)>)
        ensures
            r == self.align_outcome(
                epoch_now,
                inst_now,
                interval,
                initial_interval_tolerance,
                align_offset_ns,
            ),
    {
        let interval = match interval {
            Some(i) => i,
            None => self.interval,
        };
        let interval_tolerance = match initial_interval_tolerance {
            Some(t) => t,
            None => Duration { nanos: interval.nanos / 10 },
        };
        let prev_trig = match self.wakeup_time.checked_sub(self.interval) {
            Some(t) => t,
            None => return None,
        };
        if interval.nanos == 0 || interval_tolerance.nanos >= interval.nanos {
            return None;
        }
        let ticks_to_align = Duration {
            nanos: align_delay_exec(epoch_now.nanos, interval.nanos, align_offset_ns),
        };
        let desired = match inst_now.checked_add(ticks_to_align) {
            Some(d) => d,
            None => return None,
        };
        let next_trig = match prev_trig.checked_add(interval) {
            Some(t) => t,
            None => return None,
        };
        let earliest = match next_trig.checked_sub(interval_tolerance) {
            Some(t) => t,
            None => return None,
        };
        if desired.nanos < earliest.nanos {
            match desired.checked_add(interval) {
                Some(d) => Some((d, interval)),
                None => None,
            }
        } else {
            Some((desired, interval))
        }
    }

    /// Whether `align_with_clock` may be called with these arguments; `false` exactly where it
    /// would panic.
    pub fn align_admissible(
        &self,
        epoch_now: Duration,
        inst_now: Instant,
        interval: Option<Duration>,
        initial_interval_tolerance: Option<Duration>,
        align_offset_ns: i64,
    ) -> (b: bool)
        ensures
            b == self.align_outcome(
                epoch_now,
                inst_now,
                interval,
                initial_interval_tolerance,
                align_offset_ns,
            ) is Some,
    {
        self.align_outcome_exec(
            epoch_now,
            inst_now,
            interval,
            initial_interval_tolerance,
            align_offset_ns,
        ).is_some()
    }

    /// Aligns the subsequent tick to the clock that gave `epoch_now`, read at the same moment as
    /// `inst_now`: afterwards the tick falls on a multiple of the interval on that clock, pushed
    /// later by `align_offset_ns` (a negative offset pulls it earlier). For example, if the clock reads 8500us and the interval is
    /// 1000us, the subsequent tick is set to 9000us on that clock; an offset of 100us moves it to
    /// 9100us.
    ///
    /// - `interval`: the interval to adopt; `None` keeps the current one.
    /// - `initial_interval_tolerance`: how much shorter than an interval the first one may be;
    ///   a tick that would come sooner after the previous one is moved one interval later.
    ///   `None` means a tenth of the interval.
    pub fn align_with_clock(
        &mut self,
        epoch_now: Duration,
        inst_now: Instant,
        interval: Option<Duration>,
        initial_interval_tolerance: Option<Duration>,
        align_offset_ns: i64,
    )
        requires
            old(self).align_outcome(
                epoch_now,
                inst_now,
                interval,
                initial_interval_tolerance,
                align_offset_ns,
            ) is Some,
        ensures
            (final(self).spec_wakeup_time(), final(self).spec_interval()) == old(self).align_outcome(
                epoch_now,
                inst_now,
                interval,
                initial_interval_tolerance,
                align_offset_ns,
            ).unwrap(),
    {
        let (wakeup_time, interval) = self.align_outcome_exec(
            epoch_now,
            inst_now,
            interval,
            initial_interval_tolerance,
            align_offset_ns,
        ).unwrap();
        self.wakeup_time = wakeup_time;
        self.interval = interval;
    }
}


/// After a tick, the schedule stays on the grid of its wake-up time and never drifts: the new
/// wake-up time is a whole number of intervals after the old one, and when it skips ahead it is
/// the first such time at least `minimum_interval` after `now`.
pub proof fn lemma_advance_stays_on_grid(s: Interval, now: Instant, minimum_interval: Duration)
    requires
        s.can_advance(now, minimum_interval),
        s.spec_interval().nanos > 0,
        s.advance_step(now, minimum_interval) <= u64::MAX,
    ensures
        ({
            let w = s.spec_wakeup_time().nanos;
            let i = s.spec_interval().nanos as int;
            let w2 = s.advanced_wakeup(now, minimum_interval);
            let m = now.nanos + minimum_interval.nanos;
            &&& (w2 - w) % i == 0
            &&& w2 - w >= i
            &&& w2 - w > i ==> w2 >= m && w2 - i < m
        }),
{
    let w = s.spec_wakeup_time().nanos;
    let i = s.spec_interval().nanos as int;
    let w1 = w + i;
    let m = now.nanos + minimum_interval.nanos;
    let w2 = s.advanced_wakeup(now, minimum_interval);
    if m > w1 {
        let g = m - w1;
        let k = (g - 1) / i + 1;
        assert(i * k >= g && i * k - i < g && i * k > 0) by (nonlinear_arith)
            requires
                g >= 1,
                i > 0,
                k == (g - 1) / i + 1,
        ;
        assert(((i * k) as u64) == i * k);
        assert(w2 == w1 + i * k);
        assert(w2 - w == (k + 1) * i) by (nonlinear_arith)
            requires
                w2 == w + i + i * k,
        ;
        vstd::arithmetic::div_mod::lemma_mod_multiples_basic(k + 1, i);
    } else {
        assert(w2 - w == 1 * i);
        vstd::arithmetic::div_mod::lemma_mod_multiples_basic(1, i);
    }
}

/// After a tick at `now`, the next tick is the first point of the grid `w + k * interval`
/// (`k >= 1`, `w` the wake-up time that was due) that is at least `minimum_interval` after
/// `now`: no tick comes sooner than the minimum interval, and none is skipped beyond that. This
/// holds where the distance from `w` to `now + minimum_interval` fits the 64-bit nanosecond
/// count the step passes through.
pub proof fn lemma_advance_next_tick_is_first_far_enough(
    s: Interval,
    now: Instant,
    minimum_interval: Duration,
)
    requires
        s.can_advance(now, minimum_interval),
        s.spec_interval().nanos > 0,
        now.nanos + minimum_interval.nanos - s.spec_wakeup_time().nanos <= u64::MAX,
    ensures
        ({
            let w = s.spec_wakeup_time().nanos;
            let i = s.spec_interval().nanos as int;
            let w2 = s.advanced_wakeup(now, minimum_interval);
            let m = now.nanos + minimum_interval.nanos;
            &&& w2 >= m
            &&& w2 - w >= i
            &&& (w2 - w) % i == 0
            &&& forall|k: int| k >= 1 && #[trigger] grid_point(w as int, i, k) >= m ==> w2 <= grid_point(w as int, i, k)
        }),
{
    let w = s.spec_wakeup_time().nanos;
    let i = s.spec_interval().nanos as int;
    let w1 = w + i;
    let m = now.nanos + minimum_interval.nanos;
    let w2 = s.advanced_wakeup(now, minimum_interval);
    if m > w1 {
        let g = m - w1;
        let k0 = (g - 1) / i + 1;
        assert(i * k0 >= g && i * k0 - i < g && i * k0 > 0 && i * k0 <= g - 1 + i) by (nonlinear_arith)
            requires
                g >= 1,
                i > 0,
                k0 == (g - 1) / i + 1,
        ;
        assert(s.advance_step(now, minimum_interval) == i * k0);
        assert(((i * k0) as u64) == i * k0);
        assert(w2 == w + i * k0 + i);
        assert(w2 - w == (k0 + 1) * i) by (nonlinear_arith)
            requires
                w2 == w + i * k0 + i,
        ;
        vstd::arithmetic::div_mod::lemma_mod_multiples_basic(k0 + 1, i);
        assert forall|k: int| k >= 1 && #[trigger] grid_point(w as int, i, k) >= m implies w2 <= grid_point(w as int, i, k) by {
            assert(w2 <= w + k * i) by (nonlinear_arith)
                requires
                    w + k * i >= m,
                    w + i * k0 < m,
                    w2 == w + (k0 + 1) * i,
                    i > 0,
            ;
        }
    } else {
        assert(s.advance_step(now, minimum_interval) == 0);
        assert(w2 == w + i);
        assert(w2 - w == 1 * i);
        vstd::arithmetic::div_mod::lemma_mod_multiples_basic(1, i);
        assert forall|k: int| k >= 1 && #[trigger] grid_point(w as int, i, k) >= m implies w2 <= grid_point(w as int, i, k) by {
            assert(k * i >= i) by (nonlinear_arith)
                requires
                    k >= 1,
                    i > 0,
            ;
        }
    }
}

/// After `align_with_clock`, the next tick lands on the clock's grid: the clock reading at that
/// tick minus the offset is a multiple of the interval. The tick is the first grid point not
/// before `inst_now`, or the one after it; it comes within two intervals of `inst_now`.
pub proof fn lemma_align_lands_on_clock_grid(
    s: Interval,
    epoch_now: Duration,
    inst_now: Instant,
    interval: Option<Duration>,
    initial_interval_tolerance: Option<Duration>,
    align_offset_ns: i64,
)
    requires
        s.align_outcome(epoch_now, inst_now, interval, initial_interval_tolerance, align_offset_ns) is Some,
    ensures
        ({
            let (w2, i) = s.align_outcome(
                epoch_now,
                inst_now,
                interval,
                initial_interval_tolerance,
                align_offset_ns,
            ).unwrap();
            &&& (epoch_now.nanos + (w2.nanos - inst_now.nanos) - align_offset_ns) % (i.nanos as int) == 0
            &&& 0 <= w2.nanos - inst_now.nanos < 2 * i.nanos
        }),
{
    let i = s.chosen_interval(interval);
    let n = i.nanos as int;
    let dst = epoch_now.nanos as int;
    let off = align_offset_ns as int;
    let r = align_delay(dst, n, off);
    vstd::arithmetic::div_mod::lemma_fundamental_div_mod(off - dst, n);
    let c = -((off - dst) / n);
    assert(dst + r - off == c * n) by (nonlinear_arith)
        requires
            off - dst == n * ((off - dst) / n) + r,
            c == -((off - dst) / n),
    ;
    let (w2, i2) = s.align_outcome(
        epoch_now,
        inst_now,
        interval,
        initial_interval_tolerance,
        align_offset_ns,
    ).unwrap();
    if w2.nanos - inst_now.nanos == r {
        vstd::arithmetic::div_mod::lemma_mod_multiples_basic(c, n);
    } else {
        assert(w2.nanos - inst_now.nanos == r + n);
        assert(dst + r + n - off == (c + 1) * n) by (nonlinear_arith)
            requires
                dst + r - off == c * n,
        ;
        vstd::arithmetic::div_mod::lemma_mod_multiples_basic(c + 1, n);
    }
}

/// When the previous tick is not later than `inst_now`, the first interval after alignment is
/// no shorter than the interval less the tolerance.
pub proof fn lemma_align_keeps_first_interval(
    s: Interval,
    epoch_now: Duration,
    inst_now: Instant,
    interval: Option<Duration>,
    initial_interval_tolerance: Option<Duration>,
    align_offset_ns: i64,
)
    requires
        s.align_outcome(epoch_now, inst_now, interval, initial_interval_tolerance, align_offset_ns) is Some,
        inst_now.nanos >= s.spec_wakeup_time().nanos - s.spec_interval().nanos,
    ensures
        ({
            let (w2, i) = s.align_outcome(
                epoch_now,
                inst_now,
                interval,
                initial_interval_tolerance,
                align_offset_ns,
            ).unwrap();
            w2.nanos >= s.spec_wakeup_time().nanos - s.spec_interval().nanos + i.nanos
                - Interval::chosen_tolerance(i, initial_interval_tolerance).nanos
        }),
{
    let i = s.chosen_interval(interval);
    vstd::arithmetic::div_mod::lemma_mod_bound(
        align_offset_ns as int - epoch_now.nanos as int,
        i.nanos as int,
    );
}


/// Where the aligned tick goes: to `inst_now + d`, the first point of the clock's grid
/// (`d` in `[0, interval)` with `epoch_now + d - align_offset_ns` a multiple of the interval),
/// unless that comes sooner than the interval less the tolerance after the previous tick
/// (`wakeup_time - interval`), in which case it goes one interval later. Without a given
/// interval the current one is kept; without a given tolerance it is a tenth of the interval.
pub proof fn lemma_align_tick_placement(
    s: Interval,
    epoch_now: Duration,
    inst_now: Instant,
    interval: Option<Duration>,
    initial_interval_tolerance: Option<Duration>,
    align_offset_ns: i64,
    d: int,
)
    requires
        s.align_outcome(epoch_now, inst_now, interval, initial_interval_tolerance, align_offset_ns) is Some,
        ({
            let i: int = match interval {
                Some(x) => x.nanos as int,
                None => s.spec_interval().nanos as int,
            };
            &&& 0 <= d < i
            &&& (epoch_now.nanos + d - align_offset_ns) % i == 0
        }),
    ensures
        ({
            let i: int = match interval {
                Some(x) => x.nanos as int,
                None => s.spec_interval().nanos as int,
            };
            let tol: int = match initial_interval_tolerance {
                Some(t) => t.nanos as int,
                None => i / 10,
            };
            let prev = s.spec_wakeup_time().nanos - s.spec_interval().nanos;
            let (w2, i2) = s.align_outcome(
                epoch_now,
                inst_now,
                interval,
                initial_interval_tolerance,
                align_offset_ns,
            ).unwrap();
            &&& i2.nanos == i
            &&& inst_now.nanos + d >= prev + i - tol ==> w2.nanos == inst_now.nanos + d
            &&& inst_now.nanos + d < prev + i - tol ==> w2.nanos == inst_now.nanos + d + i
        }),
{
    let i: int = match interval {
        Some(x) => x.nanos as int,
        None => s.spec_interval().nanos as int,
    };
    let e = epoch_now.nanos as int;
    let off = align_offset_ns as int;
    vstd::arithmetic::div_mod::lemma_fundamental_div_mod(e + d - off, i);
    let q = (e + d - off) / i;
    assert(off - e == (-q) * i + d) by (nonlinear_arith)
        requires
            e + d - off == i * q + 0,
    ;
    vstd::arithmetic::div_mod::lemma_fundamental_div_mod_converse(off - e, i, -q, d);
    assert(align_delay(e, i, off) == d);
}

/// Leaving the tolerance out is the same as giving a tenth of the interval.
pub proof fn lemma_align_default_tolerance_is_a_tenth(
    s: Interval,
    epoch_now: Duration,
    inst_now: Instant,
    interval: Option<Duration>,
    align_offset_ns: i64,
)
    ensures
        ({
            let i: u128 = match interval {
                Some(x) => x.nanos,
                None => s.spec_interval().nanos,
            };
            s.align_outcome(epoch_now, inst_now, interval, None, align_offset_ns) == s.align_outcome(
                epoch_now,
                inst_now,
                interval,
                Some(Duration { nanos: i / 10 }),
                align_offset_ns,
            )
        }),
{
}

/// Alignment succeeds whenever the interval is positive, the tolerance is below it and the
/// instants and spans involved are far from the ends of their ranges.
pub proof fn lemma_align_succeeds_in_range(
    s: Interval,
    epoch_now: Duration,
    inst_now: Instant,
    interval: Option<Duration>,
    initial_interval_tolerance: Option<Duration>,
    align_offset_ns: i64,
)
    requires
        ({
            let i: int = match interval {
                Some(x) => x.nanos as int,
                None => s.spec_interval().nanos as int,
            };
            let tol: int = match initial_interval_tolerance {
                Some(t) => t.nanos as int,
                None => i / 10,
            };
            &&& 0 < i <= 0x1_0000_0000_0000_0000_0000_0000_0000
            &&& tol < i
            &&& s.spec_interval().nanos <= 0x1_0000_0000_0000_0000_0000_0000_0000
            &&& -0x1_0000_0000_0000_0000_0000_0000_0000 <= s.spec_wakeup_time().nanos
                <= 0x1_0000_0000_0000_0000_0000_0000_0000
            &&& -0x1_0000_0000_0000_0000_0000_0000_0000 <= inst_now.nanos
                <= 0x1_0000_0000_0000_0000_0000_0000_0000
        }),
    ensures
        s.align_outcome(epoch_now, inst_now, interval, initial_interval_tolerance, align_offset_ns) is Some,
{
    let i: int = match interval {
        Some(x) => x.nanos as int,
        None => s.spec_interval().nanos as int,
    };
    vstd::arithmetic::div_mod::lemma_mod_bound(
        align_offset_ns as int - epoch_now.nanos as int,
        i,
    );
}


/// A tick can always be advanced when the minimum interval does not exceed a positive interval
/// and the instants and spans involved are far from the ends of their ranges.
pub proof fn lemma_advance_succeeds_in_range(s: Interval, now: Instant, minimum_interval: Duration)
    requires
        0 < s.spec_interval().nanos <= 0x1_0000_0000_0000_0000_0000_0000,
        minimum_interval.nanos <= s.spec_interval().nanos,
        -0x1_0000_0000_0000_0000_0000_0000 <= s.spec_wakeup_time().nanos
            <= 0x1_0000_0000_0000_0000_0000_0000,
        -0x1_0000_0000_0000_0000_0000_0000 <= now.nanos <= 0x1_0000_0000_0000_0000_0000_0000,
    ensures
        s.can_advance(now, minimum_interval),
{
    let w = s.spec_wakeup_time().nanos;
    let i = s.spec_interval().nanos as int;
    let w1 = w + i;
    let m = now.nanos + minimum_interval.nanos;
    if m > w1 {
        let g = m - w1;
        let k0 = (g - 1) / i + 1;
        assert(i * k0 <= g - 1 + i && i * k0 >= 0) by (nonlinear_arith)
            requires
                g >= 1,
                i > 0,
                k0 == (g - 1) / i + 1,
        ;
        assert(s.advance_step(now, minimum_interval) == i * k0);
    }
}

} // verus!
