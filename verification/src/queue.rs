//! The driver's timer queue: a 4-ary max-heap of `dary_heap`, holding `(rank, id)` pairs.
//!
//! Every contract here is trusted: it restates what `dary_heap` documents and implements for
//! its `DaryHeap` (a max-heap on `Ord`; tuples of integers are ordered lexicographically).
use vstd::prelude::*;

use dary_heap::DaryHeap;
use vstd::multiset::Multiset;

verus! {

/// The arity of the timer queue.
pub const QUEUE_ARITY: usize = 4;

#[verifier::external_type_specification]
#[verifier::external_body]
#[verifier::reject_recursive_types(T)]
pub struct ExDaryHeap<T, const D: usize>(DaryHeap<T, D>);

/// The items that a timer queue holds, counted with multiplicity.
pub uninterp spec fn queue_items(heap: DaryHeap<(u64, u64), 4>) -> Multiset<(u64, u64)>;

/// `a <= b` in the lexicographic order that std defines on pairs.
pub open spec fn item_le(a: (u64, u64), b: (u64, u64)) -> bool {
    a.0 < b.0 || (a.0 == b.0 && a.1 <= b.1)
}

/// `x` is in `items` and no item is greater.
pub open spec fn is_greatest(x: (u64, u64), items: Multiset<(u64, u64)>) -> bool {
    &&& items.contains(x)
    &&& forall|y: (u64, u64)| items.contains(y) ==> item_le(y, x)
}

/// `DaryHeap::new`: an empty heap.
#[verifier::external_body]
pub(crate) fn queue_new() -> (heap: DaryHeap<(u64, u64), 4>)
    ensures
        queue_items(heap) == Multiset::<(u64, u64)>::empty(),
{
    DaryHeap::new()
}

/// `DaryHeap::push`: the item joins the heap.
#[verifier::external_body]
pub(crate) fn queue_push(heap: &mut DaryHeap<(u64, u64), 4>, item: (u64, u64))
    ensures
        queue_items(*final(heap)) == queue_items(*old(heap)).insert(item),
{
    heap.push(item)
}

/// `DaryHeap::pop`: removes and returns a greatest item, or `None` when the heap is empty.
#[verifier::external_body]
pub(crate) fn queue_pop(heap: &mut DaryHeap<(u64, u64), 4>) -> (r: Option<(u64, u64)>)
    ensures
        r is None <==> queue_items(*old(heap)).len() == 0,
        r is None ==> queue_items(*final(heap)) == queue_items(*old(heap)),
        r matches Some(x) ==> is_greatest(x, queue_items(*old(heap)))
            && queue_items(*final(heap)) == queue_items(*old(heap)).remove(x),
{
    heap.pop()
}

/// `DaryHeap::peek`: a greatest item, or `None` when the heap is empty.
#[verifier::external_body]
pub(crate) fn queue_peek(heap: &DaryHeap<(u64, u64), 4>) -> (r: Option<(u64, u64)>)
    ensures
        r is None <==> queue_items(*heap).len() == 0,
        r matches Some(x) ==> is_greatest(x, queue_items(*heap)),
{
    heap.peek().copied()
}

/// `DaryHeap::len`: the number of items.
#[verifier::external_body]
pub(crate) fn queue_len(heap: &DaryHeap<(u64, u64), 4>) -> (n: usize)
    ensures
        n == queue_items(*heap).len(),
{
    heap.len()
}

/// `DaryHeap::into_vec`: the items, in an unspecified order.
#[verifier::external_body]
pub(crate) fn queue_into_vec(heap: DaryHeap<(u64, u64), 4>) -> (v: Vec<(u64, u64)>)
    ensures
        v@.to_multiset() == queue_items(heap),
{
    heap.into_vec()
}

/// `DaryHeap::from(Vec)`: a heap holding the vector's items.
#[verifier::external_body]
pub(crate) fn queue_from_vec(v: Vec<(u64, u64)>) -> (heap: DaryHeap<(u64, u64), 4>)
    ensures
        queue_items(heap) == v@.to_multiset(),
{
    DaryHeap::from(v)
}

} // verus!
