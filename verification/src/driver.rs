//! The decisions of the timer driver.
//!
//! The driver thread owns a `Driver` and runs the loop around it: it reads the clock, receives
//! sleep requests, sleeps, spins and wakes sleepers. Every decision of that loop is made here:
//! how long to wait for a request, when a timer fires and which one, when garbage is collected
//! and which timers it removes.
//!
//! A timer is a pair `(rank, id)` in a max-heap, where `rank` is the bitwise complement of its
//! deadline in microseconds since the driver's pivot, so that the greatest pair is the timer with
//! the earliest deadline, and `id` finds the sleeper again.
use vstd::prelude::*;

use std::collections::HashSet;

use dary_heap::DaryHeap;
use vstd::multiset::Multiset;

use crate::builder::Builder;
use crate::queue::{
    is_greatest, item_le, queue_from_vec, queue_into_vec, queue_items, queue_len, queue_new,
    queue_peek, queue_pop, queue_push,
};
use crate::time::{Duration, Instant};

verus! {

broadcast use {
    vstd::std_specs::hash::group_hash_axioms,
    vstd::multiset::group_multiset_axioms,
    vstd::multiset::group_multiset_properties,
    vstd::seq_lib::group_to_multiset_ensures,
};

/// The rank under which a timer with deadline `timeout_usec` is queued.
pub open spec fn rank_of(timeout_usec: u64) -> u64 {
    (u64::MAX - timeout_usec) as u64
}

/// The deadline, in microseconds since the pivot, of a queued timer.
pub open spec fn timeout_of(item: (u64, u64)) -> u64 {
    (u64::MAX - item.0) as u64
}

/// Microseconds from `pivot` to `x`, zero when `x` is earlier, kept to the low 64 bits.
pub open spec fn usec_since(pivot: Instant, x: Instant) -> u64 {
    if x.nanos >= pivot.nanos {
        ((x.nanos - pivot.nanos) / 1000) as u64
    } else {
        0
    }
}

/// `now` is early enough that any deadline of a timer can be added to it.
pub open spec fn plannable(now: Instant) -> bool {
    now.nanos + (u64::MAX as int) * 1000 <= i128::MAX
}

/// What the driver thread does next.
#[derive(Clone, Copy, Debug, PartialEq, Eq, Structural)]
pub enum Wait {
    /// No timer is pending: block until a request arrives.
    Request,
    /// Wait for a request, but no later than the given instant.
    RequestUntil(Instant),
    /// The earliest timer is due within the scheduling resolution: spin on the clock.
    Spin,
}

/// What a receive on the request channel gave.
#[derive(Clone, Copy, Debug, PartialEq, Eq, Structural)]
pub enum Received {
    /// A sleep request.
    Request,
    /// Nothing yet.
    Empty,
    /// Nothing, and every handle is gone.
    Disconnected,
}

/// What the driver thread does after a receive.
#[derive(Clone, Copy, Debug, PartialEq, Eq, Structural)]
pub enum AfterReceive {
    /// Queue the received request.
    Take,
    /// Stop the driver.
    Exit,
    /// Go on with what it was doing.
    Continue,
}

/// The timer queue and the configuration of one driver thread.
pub struct Driver {
    nodes: DaryHeap<(u64, u64), 4>,
    next_id: u64,
    pivot: Instant,
    resolution_usec: u64,
    gc_threshold: usize,
    yields_per_spin: usize,
}

impl Driver {
    /// The timers in the queue, as `(rank, id)` pairs.
    pub closed spec fn pending(self) -> Multiset<(u64, u64)> {
        queue_items(self.nodes)
    }

    /// The id that the next queued timer gets.
    pub closed spec fn spec_next_id(self) -> u64 {
        self.next_id
    }

    /// The instant from which deadlines are counted.
    pub closed spec fn spec_pivot(self) -> Instant {
        self.pivot
    }

    /// How far ahead of a deadline the driver stops waiting and starts spinning.
    pub closed spec fn spec_resolution_usec(self) -> u64 {
        self.resolution_usec
    }

    /// How many uncollected aborted timers the driver tolerates.
    pub closed spec fn spec_gc_threshold(self) -> usize {
        self.gc_threshold
    }

    /// Every how many turns of spinning the request channel is polled.
    pub closed spec fn spec_yields_per_spin(self) -> usize {
        self.yields_per_spin
    }

    /// Every queued id was handed out before and is queued once, and the spin period is
    /// positive.
    pub closed spec fn wf(self) -> bool {
        &&& forall|x: (u64, u64)| #[trigger] self.pending().contains(x) ==> x.1 < self.next_id
        &&& forall|x: (u64, u64), y: (u64, u64)|
            #[trigger] self.pending().contains(x) && #[trigger] self.pending().contains(y) && x.1
                == y.1 ==> x == y
        &&& forall|x: (u64, u64)| #[trigger] self.pending().count(x) <= 1
        &&& self.yields_per_spin >= 1
    }

    /// The timer that fires next: the greatest pair, that is the earliest deadline, ties going
    /// to the greater id.
    pub open spec fn next_item(self) -> (u64, u64) {
        choose|x: (u64, u64)| is_greatest(x, self.pending())
    }

    /// What `next_wait` decides at `now`.
    pub open spec fn spec_wait(self, now: Instant) -> Wait {
        if self.pending().len() == 0 {
            Wait::Request
        } else {
            let t = timeout_of(self.next_item());
            let n = usec_since(self.spec_pivot(), now);
            let remain: int = if t > n { t - n } else { 0 };
            if remain > self.spec_resolution_usec() {
                Wait::RequestUntil(
                    Instant {
                        nanos: (now.nanos + (remain - self.spec_resolution_usec()) * 1000) as i128,
                    },
                )
            } else {
                Wait::Spin
            }
        }
    }

    /// Settings unchanged between two states of a driver.
    pub open spec fn same_settings(self, other: Driver) -> bool {
        &&& self.spec_pivot() == other.spec_pivot()
        &&& self.spec_resolution_usec() == other.spec_resolution_usec()
        &&& self.spec_gc_threshold() == other.spec_gc_threshold()
        &&& self.spec_yields_per_spin() == other.spec_yields_per_spin()
    }

    /// A driver with an empty queue that counts deadlines from `pivot`.
    pub fn new(builder: &Builder, pivot: Instant) -> (d: Driver)
        ensures
            d.wf(),
            d.pending() == Multiset::<(u64, u64)>::empty(),
            d.spec_next_id() == 0,
            d.spec_pivot() == pivot,
            d.spec_resolution_usec() == (builder.schedule_resolution.nanos / 1000) as u64,
            d.spec_gc_threshold() == builder.gc_threshold,
            d.spec_yields_per_spin() == if builder.yields_per_spin == 0 { 1 } else { builder.yields_per_spin },
    {
        let yields_per_spin = if builder.yields_per_spin == 0 { 1 } else { builder.yields_per_spin };
        Driver {
            nodes: queue_new(),
            next_id: 0,
            pivot,
            resolution_usec: builder.schedule_resolution.as_micros() as u64,
            gc_threshold: builder.gc_threshold,
            yields_per_spin,
        }
    }
}

/// In a well-formed driver every id is queued at most once, so an id names one timer.
pub proof fn lemma_queued_ids_distinct(d: Driver, x: (u64, u64), y: (u64, u64))
    requires
        d.wf(),
        d.pending().contains(x),
        d.pending().contains(y),
        x.1 == y.1,
    ensures
        x == y,
        d.pending().count(x) == 1,
{
}

/// Taking timers off a well-formed queue keeps it well-formed.
proof fn lemma_wf_after_removal(before: Driver, after: Driver)
    requires
        before.wf(),
        after.next_id == before.next_id,
        after.yields_per_spin == before.yields_per_spin,
        forall|x: (u64, u64)| #[trigger] after.pending().count(x) <= before.pending().count(x),
    ensures
        after.wf(),
{
    assert forall|z: (u64, u64)| #[trigger] after.pending().contains(z) implies z.1
        < after.next_id by {
        assert(before.pending().contains(z));
    }
    assert forall|z: (u64, u64)| #[trigger] after.pending().count(z) <= 1 by {
        assert(before.pending().count(z) <= 1);
    }
    assert forall|a: (u64, u64), b: (u64, u64)|
        #[trigger] after.pending().contains(a) && #[trigger] after.pending().contains(b) && a.1
            == b.1 implies a == b by {
        assert(before.pending().contains(a));
        assert(before.pending().contains(b));
    }
}

/// Queueing a timer under the next id keeps a well-formed queue well-formed.
proof fn lemma_wf_after_insert(before: Driver, after: Driver, item: (u64, u64))
    requires
        before.wf(),
        item.1 == before.next_id,
        after.next_id == before.next_id + 1,
        after.yields_per_spin == before.yields_per_spin,
        after.pending() == before.pending().insert(item),
    ensures
        after.wf(),
{
    assert(!before.pending().contains(item));
    assert forall|z: (u64, u64)| #[trigger] after.pending().contains(z) implies z.1
        < after.next_id by {
        if z != item {
            assert(before.pending().contains(z));
        }
    }
    assert forall|z: (u64, u64)| #[trigger] after.pending().count(z) <= 1 by {
        if z != item {
            assert(before.pending().count(z) <= 1);
        }
    }
    assert forall|a: (u64, u64), b: (u64, u64)|
        #[trigger] after.pending().contains(a) && #[trigger] after.pending().contains(b) && a.1
            == b.1 implies a == b by {
        if a != item {
            assert(before.pending().contains(a));
        }
        if b != item {
            assert(before.pending().contains(b));
        }
    }
}

/// A greatest item of a queue is the one that `next_item` names.
proof fn lemma_greatest_is_next(d: Driver, x: (u64, u64))
    requires
        is_greatest(x, d.pending()),
    ensures
        d.next_item() == x,
{
    let y = d.next_item();
    assert(is_greatest(y, d.pending()));
    assert(item_le(x, y) && item_le(y, x));
}

/// The timer that fires next has the earliest deadline of all queued timers: the driver wakes
/// sleepers in the order of their deadlines.
pub proof fn lemma_next_is_earliest(d: Driver, x: (u64, u64))
    requires
        d.pending().contains(x),
    ensures
        d.pending().contains(d.next_item()),
        timeout_of(d.next_item()) <= timeout_of(x),
{
    assert(exists|g: (u64, u64)| is_greatest(g, d.pending())) by {
        lemma_multiset_has_greatest(d.pending(), x);
    }
    assert(is_greatest(d.next_item(), d.pending()));
    assert(item_le(x, d.next_item()));
}

/// A multiset that holds `x` has a greatest item.
proof fn lemma_multiset_has_greatest(m: Multiset<(u64, u64)>, x: (u64, u64))
    requires
        m.contains(x),
    ensures
        exists|g: (u64, u64)| is_greatest(g, m),
    decreases m.len(),
{
    let rest = m.remove(x);
    if rest.len() == 0 {
        assert forall|y: (u64, u64)| m.contains(y) implies item_le(y, x) by {
            if y != x {
                assert(rest.count(y) == m.count(y));
            }
        }
        assert(is_greatest(x, m));
    } else {
        let z = rest.choose();
        assert(rest.count(z) > 0);
        lemma_multiset_has_greatest(rest, z);
        let g = choose|g: (u64, u64)| is_greatest(g, rest);
        if item_le(x, g) {
            assert forall|y: (u64, u64)| m.contains(y) implies item_le(y, g) by {
                if y != x {
                    assert(rest.contains(y));
                }
            }
            assert(m.contains(g));
            assert(is_greatest(g, m));
        } else {
            assert forall|y: (u64, u64)| m.contains(y) implies item_le(y, x) by {
                if y != x {
                    assert(rest.contains(y));
                    assert(item_le(y, g));
                }
            }
            assert(is_greatest(x, m));
        }
    }
}

/// The driver blocks without limit exactly when no timer is pending, spins exactly when the
/// earliest deadline is at most the scheduling resolution after now, and otherwise waits for a
/// request with a deadline.
pub proof fn lemma_wait_spins_only_within_resolution(d: Driver, now: Instant)
    ensures
        d.spec_wait(now) == Wait::Request <==> d.pending().len() == 0,
        d.spec_wait(now) == Wait::Spin <==> d.pending().len() > 0 && timeout_of(d.next_item())
            <= usec_since(d.spec_pivot(), now) + d.spec_resolution_usec(),
        d.spec_wait(now) is RequestUntil <==> d.pending().len() > 0 && timeout_of(d.next_item())
            > usec_since(d.spec_pivot(), now) + d.spec_resolution_usec(),
{
}

/// While the driver waits for a request with a deadline, the deadline falls exactly the
/// scheduling resolution before the earliest timer's deadline, so no timer is missed.
pub proof fn lemma_wait_ends_a_resolution_early(d: Driver, now: Instant)
    requires
        d.pending().len() > 0,
        now.nanos >= d.spec_pivot().nanos,
        (now.nanos - d.spec_pivot().nanos) / 1000 <= u64::MAX,
        plannable(now),
        d.spec_wait(now) is RequestUntil,
    ensures
        usec_since(d.spec_pivot(), d.spec_wait(now)->RequestUntil_0) == timeout_of(d.next_item())
            - d.spec_resolution_usec(),
{
    let t = timeout_of(d.next_item());
    let n = usec_since(d.spec_pivot(), now);
    let e = now.nanos - d.spec_pivot().nanos;
    let k = t - n - d.spec_resolution_usec();
    assert(n == e / 1000);
    assert(t > n && t - n > d.spec_resolution_usec());
    assert(0 <= k <= u64::MAX);
    assert((e + k * 1000) / 1000 == e / 1000 + k) by (nonlinear_arith)
        requires
            e >= 0,
            k >= 0,
    ;
    let w = d.spec_wait(now)->RequestUntil_0;
    assert(w.nanos == now.nanos + k * 1000);
    assert(w.nanos - d.spec_pivot().nanos == e + k * 1000);
}

impl Driver {
    /// Microseconds from the pivot to `x`, as the queue counts deadlines.
    pub fn to_usec(&self, x: Instant) -> (n: u64)
        ensures
            n == usec_since(self.spec_pivot(), x),
    {
        let since = x.saturating_duration_since(self.pivot);
        since.as_micros() as u64
    }

    /// Whether `now` is early enough for `next_wait`.
    pub fn is_plannable(now: Instant) -> (b: bool)
        ensures
            b == plannable(now),
    {
        now.nanos <= i128::MAX - (u64::MAX as i128) * 1000
    }

    pub fn is_empty(&self) -> (b: bool)
        ensures
            b == (self.pending().len() == 0),
    {
        queue_len(&self.nodes) == 0
    }

    pub fn len(&self) -> (n: usize)
        ensures
            n == self.pending().len(),
    {
        queue_len(&self.nodes)
    }

    /// Decides how the driver thread waits at `now`: for a request without limit when no timer
    /// is pending; for a request until the scheduling resolution before the earliest deadline
    /// when that is further away than the resolution; by spinning otherwise.
    pub fn next_wait(&self, now: Instant) -> (w: Wait)
        requires
            plannable(now),
        ensures
            w == self.spec_wait(now),
            w == Wait::Request <==> self.pending().len() == 0,
            w == Wait::Spin <==> self.pending().len() > 0 && timeout_of(self.next_item()) <= usec_since(
                self.spec_pivot(),
                now,
            ) + self.spec_resolution_usec(),
            w is RequestUntil <==> self.pending().len() > 0 && timeout_of(self.next_item())
                > usec_since(self.spec_pivot(), now) + self.spec_resolution_usec(),
    {
        proof {
            lemma_wait_spins_only_within_resolution(*self, now);
        }
        match queue_peek(&self.nodes) {
            None => Wait::Request,
            Some(x) => {
                proof {
                    lemma_greatest_is_next(*self, x);
                }
                let timeout = u64::MAX - x.0;
                let remain = timeout.saturating_sub(self.to_usec(now));
                if remain > self.resolution_usec {
                    let system_sleep_for = remain - self.resolution_usec;
                    Wait::RequestUntil(now.add(Duration::from_micros(system_sleep_for)))
                } else {
                    Wait::Spin
                }
            },
        }
    }

    /// Fires the earliest timer if its deadline has passed at `now`: it leaves the queue and its
    /// id is returned. Otherwise the queue stays as it is and `None` is returned.
    pub fn try_fire(&mut self, now: Instant) -> (r: Option<u64>)
        requires
            old(self).wf(),
        ensures
            final(self).wf(),
            final(self).same_settings(*old(self)),
            final(self).spec_next_id() == old(self).spec_next_id(),
            ({
                let x = old(self).next_item();
                if old(self).pending().len() > 0 && usec_since(old(self).spec_pivot(), now)
                    >= timeout_of(x) {
                    &&& r == Some(x.1)
                    &&& final(self).pending() == old(self).pending().remove(x)
                } else {
                    &&& r is None
                    &&& final(self).pending() == old(self).pending()
                }
            }),
    {
        match queue_peek(&self.nodes) {
            None => None,
            Some(x) => {
                proof {
                    lemma_greatest_is_next(*self, x);
                }
                if self.to_usec(now) >= u64::MAX - x.0 {
                    let popped = queue_pop(&mut self.nodes);
                    let y = popped.unwrap();
                    proof {
                        lemma_greatest_is_next(*old(self), y);
                        lemma_wf_after_removal(*old(self), *self);
                    }
                    Some(y.1)
                } else {
                    None
                }
            },
        }
    }

    /// Whether the spinning thread polls the request channel on this turn, given how many
    /// turns it has yielded so far.
    pub fn poll_due(&self, yields_counter: usize) -> (b: bool)
        requires
            self.wf(),
        ensures
            b == (yields_counter % self.spec_yields_per_spin() == 0),
    {
        yields_counter % self.yields_per_spin == 0
    }

    /// Whether to collect garbage right after a timer fired, given the garbage count as it was
    /// before the firing timer was taken off it.
    pub fn collects_after_fire(&self, n_garbage: isize) -> (b: bool)
        ensures
            b == (n_garbage > self.spec_gc_threshold() as isize),
    {
        n_garbage > self.gc_threshold as isize
    }

    /// Whether to collect garbage before queueing newly received requests: the garbage count
    /// exceeds the threshold.
    pub fn collects_on_request(&self, n_garbage: isize) -> (b: bool)
        ensures
            b == (n_garbage > self.spec_gc_threshold() as isize),
    {
        n_garbage > self.gc_threshold as isize
    }

    /// Queues a timer with deadline `timeout` and returns its id, which no queued timer has.
    pub fn insert(&mut self, timeout: Instant) -> (id: u64)
        requires
            old(self).wf(),
            old(self).spec_next_id() < u64::MAX,
        ensures
            final(self).wf(),
            final(self).same_settings(*old(self)),
            id == old(self).spec_next_id(),
            final(self).spec_next_id() == id + 1,
            forall|x: (u64, u64)| #[trigger] old(self).pending().contains(x) ==> x.1 != id,
            final(self).pending() == old(self).pending().insert(
                (rank_of(usec_since(old(self).spec_pivot(), timeout)), id),
            ),
    {
        let timeout_usec = self.to_usec(timeout);
        let id = self.next_id;
        queue_push(&mut self.nodes, (u64::MAX - timeout_usec, id));
        self.next_id = id + 1;
        proof {
            lemma_wf_after_insert(*old(self), *self, ((u64::MAX - timeout_usec) as u64, id));
        }
        id
    }

    /// Removes every timer whose id is in `dead` and returns how many were removed; the others
    /// stay queued.
    pub fn collect(&mut self, dead: &HashSet<u64>) -> (n: usize)
        requires
            old(self).wf(),
        ensures
            final(self).wf(),
            final(self).same_settings(*old(self)),
            final(self).spec_next_id() == old(self).spec_next_id(),
            forall|x: (u64, u64)|
                #[trigger] final(self).pending().count(x) == if dead@.contains(x.1) {
                    0
                } else {
                    old(self).pending().count(x)
                },
            n == old(self).pending().len() - final(self).pending().len(),
    {
        let prev_len = queue_len(&self.nodes);
        let mut taken = queue_new();
        std::mem::swap(&mut taken, &mut self.nodes);
        let all = queue_into_vec(taken);
        let mut kept: Vec<(u64, u64)> = Vec::new();
        let mut i: usize = 0;
        while i < all.len()
            invariant
                i <= all.len(),
                kept.len() <= i,
                forall|x: (u64, u64)|
                    #[trigger] kept@.to_multiset().count(x) == if dead@.contains(x.1) {
                        0
                    } else {
                        all@.take(i as int).to_multiset().count(x)
                    },
            decreases all.len() - i,
        {
            let item = all[i];
            proof {
                assert(all@.take(i + 1) =~= all@.take(i as int).push(item));
            }
            if !dead.contains(&item.1) {
                kept.push(item);
            }
            i += 1;
        }
        proof {
            assert(all@.take(all@.len() as int) =~= all@);
        }
        self.nodes = queue_from_vec(kept);
        proof {
            lemma_wf_after_removal(*old(self), *self);
        }
        prev_len - queue_len(&self.nodes)
    }

    /// Decides what follows a receive on the request channel: a request is queued; the driver
    /// stops once every handle is gone and no timer is pending; otherwise it goes on.
    pub fn on_receive(&self, received: Received) -> (a: AfterReceive)
        ensures
            received == Received::Request ==> a == AfterReceive::Take,
            received == Received::Empty ==> a == AfterReceive::Continue,
            received == Received::Disconnected ==> a == if self.pending().len() == 0 {
                AfterReceive::Exit
            } else {
                AfterReceive::Continue
            },
            a == AfterReceive::Exit ==> self.pending().len() == 0,
    {
        match received {
            Received::Request => AfterReceive::Take,
            Received::Empty => AfterReceive::Continue,
            Received::Disconnected => if self.is_empty() {
                AfterReceive::Exit
            } else {
                AfterReceive::Continue
            },
        }
    }

    /// Whether all ids are handed out, so that `insert` cannot be called.
    pub fn ids_exhausted(&self) -> (b: bool)
        ensures
            b == (self.spec_next_id() == u64::MAX),
    {
        self.next_id == u64::MAX
    }
}
} // verus!
