//! Bookkeeping of a transmit descriptor ring: the descriptors from `tail`
//! (next to reclaim) up to `head` (next to use) are in flight, each with the
//! buffer it sends.
use vstd::prelude::*;

verus! {

/// Whether slot `i` lies in the cyclic range `[tail, head)`.
pub open spec fn in_flight(i: int, tail: int, head: int) -> bool {
    if tail <= head {
        tail <= i < head
    } else {
        i >= tail || i < head
    }
}

/// The slots of a ring of `n` descriptors hold a buffer exactly for the
/// descriptors in flight.
pub open spec fn ring_wf<B>(slots: Seq<Option<B>>, n: int, tail: int, head: int) -> bool {
    &&& slots.len() == n
    &&& 0 <= tail < n
    &&& 0 <= head < n
    &&& forall|i: int| 0 <= i < n ==> ((#[trigger] slots[i]) is Some <==> in_flight(i, tail, head))
}

/// Number of descriptors in flight.
pub open spec fn in_flight_count(n: int, tail: int, head: int) -> int {
    if tail <= head {
        head - tail
    } else {
        n - tail + head
    }
}

/// The next slot of a ring of `n`.
pub open spec fn next_slot(i: int, n: int) -> int {
    (i + 1) % n
}

/// The next slot is the following one, or the first after the last.
pub proof fn lemma_next_slot(i: int, n: int)
    requires
        0 <= i < n,
    ensures
        next_slot(i, n) == if i + 1 == n { 0 } else { i + 1 },
{
    if i + 1 == n {
        vstd::arithmetic::div_mod::lemma_mod_self_0(n);
    } else {
        vstd::arithmetic::div_mod::lemma_small_mod((i + 1) as nat, n as nat);
    }
}

/// Reclaiming the descriptor at `tail` (emptying its slot and moving
/// `tail` on) keeps the ring consistent.
pub proof fn lemma_reclaim_one<B>(slots: Seq<Option<B>>, n: int, tail: int, head: int)
    requires
        ring_wf(slots, n, tail, head),
        tail != head,
    ensures
        ring_wf(slots.update(tail, None), n, next_slot(tail, n), head),
        in_flight_count(n, next_slot(tail, n), head) == in_flight_count(n, tail, head) - 1,
{
    let s2 = slots.update(tail, None);
    let t2 = next_slot(tail, n);
    lemma_next_slot(tail, n);
    assert forall|i: int| 0 <= i < n implies ((#[trigger] s2[i]) is Some <==> in_flight(i, t2, head)) by {
        if i != tail {
            assert(s2[i] == slots[i]);
        }
    }
}

/// Using the descriptor at `head` for `buf` (when the ring is not full)
/// keeps the ring consistent.
pub proof fn lemma_use_one<B>(slots: Seq<Option<B>>, n: int, tail: int, head: int, buf: B)
    requires
        ring_wf(slots, n, tail, head),
        next_slot(head, n) != tail,
    ensures
        slots[head] is None,
        ring_wf(slots.update(head, Some(buf)), n, tail, next_slot(head, n)),
        in_flight_count(n, tail, next_slot(head, n)) == in_flight_count(n, tail, head) + 1,
{
    let s2 = slots.update(head, Some(buf));
    let h2 = next_slot(head, n);
    lemma_next_slot(head, n);
    assert forall|i: int| 0 <= i < n implies ((#[trigger] s2[i]) is Some <==> in_flight(i, tail, h2)) by {
        if i != head {
            assert(s2[i] == slots[i]);
        }
    }
}

/// Ring capacity: a consistent ring of `n` descriptors never has more than
/// `n - 1` of them in flight while it accepts a new one only when the next
/// head is not the tail.
pub proof fn lemma_in_flight_bound(n: int, tail: int, head: int)
    requires
        0 <= tail < n,
        0 <= head < n,
    ensures
        0 <= in_flight_count(n, tail, head) < n,
        in_flight_count(n, tail, head) == 0 <==> tail == head,
        next_slot(head, n) == tail ==> in_flight_count(n, tail, head) == n - 1,
{
    lemma_next_slot(head, n);
}

} // verus!
