//! A single-producer / optional-single-worker / single-consumer bounded ring
//! buffer, verified for the single-execution-context index protocol.
//!
//! Elements travel through a fixed ring of slots: a producer writes them, an
//! optional worker mutates them in place, and a consumer reads them out, each
//! participant owning one monotonically advancing index.  One slot is always
//! kept free so that an empty ring can be told apart from a full one.

use vstd::prelude::*;

pub mod iterators;
pub mod laws;
pub mod ring_buffer;

pub use crate::iterators::async_iterators::AsyncConsIter;
pub use crate::iterators::async_iterators::AsyncDetached;
pub use crate::iterators::async_iterators::AsyncProdIter;
pub use crate::iterators::async_iterators::AsyncWorkIter;
pub use crate::iterators::cons_iter::ConsIter;
pub use crate::iterators::detached::Detached;
pub use crate::iterators::prod_iter::ProdIter;
pub use crate::iterators::work_iter::WorkIter;
pub use crate::ring_buffer::LocalHeapRB;
pub use crate::ring_buffer::LocalHeapRBMut;
pub use crate::ring_buffer::OneRingBuf;
pub use crate::ring_buffer::iters_components::IterComponent;
pub use crate::ring_buffer::iters_components::LocalComp;
pub use crate::ring_buffer::iters_components::LocalCompMut;
pub use crate::ring_buffer::iters_components::MutIterComp;
pub use crate::ring_buffer::iters_components::NonMutIterComp;
pub use crate::ring_buffer::storage_components::HeapStorage;
pub use crate::ring_buffer::storage_components::StackStorage;
pub use crate::ring_buffer::vmem_helper::get_page_size_mul;

verus! {

/// Forward distance from `a` to `b` on a ring of length `n`, for `a, b < n`.
///
/// This is the number of single steps a participant standing at `a` must take
/// to reach `b`, wrapping at `n`.
pub open spec fn ring_dist(a: int, b: int, n: int) -> int {
    if a <= b {
        b - a
    } else {
        n - a + b
    }
}

/// The slot reached from `start` after `i` forward steps on a ring of length
/// `n`, for `start < n` and `i <= n`.
pub open spec fn ring_pos(start: int, i: int, n: int) -> int {
    if start + i < n {
        start + i
    } else {
        start + i - n
    }
}

/// The `count` ring elements of `s` beginning at `start`, in ring order.
pub open spec fn ring_seg<T>(s: Seq<T>, start: int, count: int) -> Seq<T> {
    Seq::new(count as nat, |i: int| s[ring_pos(start, i, s.len() as int)])
}

/// Walking `ring_dist(start, p, n)` steps from `start` lands on `p`.
pub proof fn lemma_pos_of_dist(start: int, p: int, n: int)
    requires
        0 <= start < n,
        0 <= p < n,
    ensures
        ring_pos(start, ring_dist(start, p, n), n) == p,
{
}

/// Walking `i` steps from `start` lands at distance `i`.
pub proof fn lemma_dist_of_pos(start: int, i: int, n: int)
    requires
        0 <= start < n,
        0 <= i < n,
    ensures
        ring_dist(start, ring_pos(start, i, n), n) == i,
        0 <= ring_pos(start, i, n) < n,
{
}

/// Two walks from the same start compose, as long as they stay within one
/// full turn of the ring.
pub proof fn lemma_pos_add(start: int, k: int, j: int, n: int)
    requires
        0 <= start < n,
        0 <= k,
        0 <= j,
        k + j <= n,
    ensures
        ring_pos(ring_pos(start, k, n), j, n) == ring_pos(start, k + j, n),
{
}

/// Advancing `k` steps towards a goal shortens the remaining distance by
/// exactly `k`.
pub proof fn lemma_dist_advance(a: int, b: int, n: int, k: int)
    requires
        0 <= a < n,
        0 <= b < n,
        0 <= k <= ring_dist(a, b, n),
    ensures
        ring_dist(ring_pos(a, k, n), b, n) == ring_dist(a, b, n) - k,
        0 <= ring_pos(a, k, n) < n,
{
}

/// Moving the goal `k` steps further lengthens the distance by exactly `k`,
/// as long as the gap slot is not crossed.
pub proof fn lemma_dist_extend(a: int, b: int, n: int, k: int)
    requires
        0 <= a < n,
        0 <= b < n,
        0 <= k,
        ring_dist(a, b, n) + k <= n - 1,
    ensures
        ring_dist(a, ring_pos(b, k, n), n) == ring_dist(a, b, n) + k,
        0 <= ring_pos(b, k, n) < n,
{
}

/// Distances from one point add up along the ring order: if `b` lies within
/// the stretch from `a` to `c`, the walk from `a` to `c` passes through `b`.
pub proof fn lemma_dist_additive(a: int, b: int, c: int, n: int)
    requires
        0 <= a < n,
        0 <= b < n,
        0 <= c < n,
        ring_dist(a, b, n) + ring_dist(b, c, n) <= n - 1,
    ensures
        ring_dist(a, c, n) == ring_dist(a, b, n) + ring_dist(b, c, n),
{
}

/// A point within reach of the walk from `a` to `c` splits that walk.
pub proof fn lemma_dist_between(a: int, b: int, c: int, n: int)
    requires
        0 <= a < n,
        0 <= b < n,
        0 <= c < n,
        ring_dist(a, b, n) <= ring_dist(a, c, n),
    ensures
        ring_dist(b, c, n) == ring_dist(a, c, n) - ring_dist(a, b, n),
{
}

} // verus!
