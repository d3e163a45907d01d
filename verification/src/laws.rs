//! The library's quantified laws, proved once and for all against the model
//! that the operations' contracts are stated over.

use vstd::prelude::*;

use crate::lemma_dist_additive;
use crate::lemma_dist_advance;
use crate::lemma_dist_extend;
use crate::ring_dist;
use crate::ring_pos;
use crate::ring_buffer::OneRingBuf;
use crate::ring_buffer::iters_components::IterComponent;

verus! {

/// With no worker, driven by pushes and pops alone, the sequence of values
/// the consumer has handed out is a prefix of the sequence the producer has
/// handed in, in order.
///
/// [`ProdIter::push`] and [`ConsIter::pop`] each ensure that
/// [`OneRingBuf::fifo_inv`] is carried from state to state, so this holds
/// after any interleaving of the two.
///
/// [`ProdIter::push`]: crate::iterators::prod_iter::ProdIter::push
/// [`ConsIter::pop`]: crate::iterators::cons_iter::ConsIter::pop
pub proof fn lemma_fifo_order<T, I: IterComponent>(rb: OneRingBuf<T, I>)
    requires
        rb.fifo_inv(),
    ensures
        rb.popped() == rb.pushed().take(rb.popped().len() as int),
        rb.popped().len() <= rb.pushed().len(),
{
    assert(rb.popped() =~= rb.pushed().take(rb.popped().len() as int));
}

/// The value the consumer pops next is exactly the oldest pushed value that
/// has not been popped yet: pushing an element and later popping one's way
/// to it returns a value equal to it.
pub proof fn lemma_next_pop_is_oldest<T, I: IterComponent>(rb: OneRingBuf<T, I>)
    requires
        rb.fifo_inv(),
        rb.avail_cons() >= 1,
    ensures
        rb.cons_queue()[0] == rb.pushed()[rb.popped().len() as int],
{
}

/// Push-then-pop identity, for a buffer without a worker: once everything
/// pushed before `x` has been handed out, a successful push of `x` leaves
/// the consumer's stretch holding exactly `x`, so [`ConsIter::pop`]'s
/// contract makes the next pop return `Some(x)`.
///
/// [`ConsIter::pop`]: crate::iterators::cons_iter::ConsIter::pop
pub proof fn lemma_push_then_pop_identity<T, I: IterComponent>(rb: OneRingBuf<T, I>, x: T)
    requires
        rb.fifo_inv(),
        rb.pushed() == rb.popped().push(x),
    ensures
        rb.avail_cons() == 1,
        rb.cons_queue()[0] == x,
{
    assert(rb.pushed().len() == rb.popped().len() + rb.cons_queue().len());
    assert(rb.cons_queue()[0] == rb.pushed()[rb.popped().len() as int]);
}

/// An asynchronous pop that finds the ring empty reports nothing done and
/// leaves its wake token registered; on a buffer without a worker the
/// producer's next push takes and signals that token directly.  This lemma
/// closes the loop: such a push leaves the consumer's stretch holding
/// exactly the pushed element, so the woken pop's next poll completes with
/// it.
pub proof fn lemma_producer_push_feeds_pop<T, I: IterComponent>(
    pre: OneRingBuf<T, I>,
    post: OneRingBuf<T, I>,
    x: T,
)
    requires
        pre.wf(),
        !I::mutable(),
        pre.avail_cons() == 0,
        post.wf(),
        post.cons_queue() == pre.cons_queue().push(x),
    ensures
        post.avail_cons() == 1,
        post.cons_queue()[0] == x,
{
    assert(pre.cons_queue().len() == 0);
    assert(post.avail_cons() == post.cons_queue().len());
}

/// At any quiescent point, producer availability plus worker availability
/// plus consumer availability accounts for every slot but the reserved gap.
pub proof fn lemma_avail_partition<T, I: IterComponent>(rb: OneRingBuf<T, I>)
    requires
        rb.wf(),
    ensures
        rb.avail_prod() + rb.avail_work() + rb.avail_cons() == rb.n() - 1,
{
    lemma_dist_additive(rb.cons(), rb.work(), rb.prod(), rb.n());
}

/// The availability computed against the freshest indices counts exactly the
/// single-step advances a consuming participant can make before its
/// successor moves: advancing by `k` is allowed precisely while `k` stays
/// within it, and leaves exactly `avail - k` more steps.
pub proof fn lemma_avail_counts_steps(own: int, succ: int, n: int, k: int)
    requires
        0 <= own < n,
        0 <= succ < n,
        0 <= k <= ring_dist(own, succ, n),
    ensures
        ring_dist(ring_pos(own, k, n), succ, n) == ring_dist(own, succ, n) - k,
        k == ring_dist(own, succ, n) ==> ring_dist(ring_pos(own, k, n), succ, n) == 0,
{
    lemma_dist_advance(own, succ, n, k);
}

/// The producer's availability counts its possible single-step advances the
/// same way, with the gap slot held back.
pub proof fn lemma_prod_avail_counts_steps(cons: int, prod: int, n: int, k: int)
    requires
        0 <= cons < n,
        0 <= prod < n,
        0 <= k <= n - 1 - ring_dist(cons, prod, n),
    ensures
        n - 1 - ring_dist(cons, ring_pos(prod, k, n), n)
            == n - 1 - ring_dist(cons, prod, n) - k,
{
    lemma_dist_extend(cons, prod, n, k);
}

/// An asynchronous push that finds the ring full reports nothing done and
/// leaves its wake token registered; this lemma closes the loop: after the
/// consumer advances — which takes and signals that token — the ring has
/// room again, so the woken push's next poll completes.
pub proof fn lemma_consumer_advance_frees_space<T, I: IterComponent>(
    pre: OneRingBuf<T, I>,
    post: OneRingBuf<T, I>,
    k: int,
)
    requires
        pre.wf(),
        post.wf(),
        pre.avail_prod() == 0,
        1 <= k <= pre.avail_cons(),
        post.n() == pre.n(),
        post.prod() == pre.prod(),
        post.cons() == ring_pos(pre.cons(), k, pre.n()),
    ensures
        post.avail_prod() == k,
        post.avail_prod() >= 1,
{
    lemma_dist_additive(pre.cons(), pre.work(), pre.prod(), pre.n());
    lemma_dist_advance(pre.cons(), pre.prod(), pre.n(), k);
}

} // verus!
