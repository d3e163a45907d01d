//! The detached worker: advances a local index without publishing it.
//!
//! While detached, the consumer does not see the worker move, so the ring can
//! be scanned forward and back freely; publication is deferred to
//! [`Detached::sync_index`] or [`Detached::attach`].

use vstd::prelude::*;

use crate::lemma_dist_additive;
use crate::lemma_dist_between;
use crate::ring_dist;
use crate::ring_pos;
use crate::ring_seg;
use crate::ring_buffer::OneRingBuf;
use crate::ring_buffer::iters_components::IterComponent;
use crate::ring_buffer::iters_components::MutIterComp;
use crate::iterators::work_iter::WorkIter;

verus! {

/// The slot reached by walking `count` steps backwards from `index` on a
/// ring of length `n`, for `index < n` and `count <= n`.
pub open spec fn ring_back(index: int, count: int, n: int) -> int {
    if index < count {
        n - count + index
    } else {
        index - count
    }
}

/// A worker handle whose advances stay local: the published worker index is
/// left where it was, so the consumer stays on hold until the detached index
/// is synchronised.
///
/// The local index is the truth here; because it may be steered backwards
/// and forwards at will, only its bounds are tracked, and the availability
/// cache may overshoot until the next fresh read.
pub struct Detached {
    pub(crate) inner: WorkIter,
}

impl WorkIter {
    /// Detaches the worker: its further advances stay local until the
    /// returned handle is synchronised or re-attached.
    pub fn detach<T, I: IterComponent>(self, rb: &OneRingBuf<T, I>) -> (r: Detached)
        requires
            self.wf(rb),
        ensures
            r.wf(rb),
            r.index_spec() == self.index_spec(),
            r.cached_spec() == self.cached_spec(),
    {
        Detached { inner: self }
    }
}

impl Detached {
    /// The handle's local index.
    pub open(crate) spec fn index_spec(&self) -> int {
        self.inner.index_spec()
    }

    /// The availability the handle last observed.
    pub open(crate) spec fn cached_spec(&self) -> int {
        self.inner.cached_spec()
    }

    /// The handle stays inside the ring; its cache is bounded by the ring's
    /// length but may overstate what is really in hand after a backward
    /// move.
    pub open spec fn wf<T, I: IterComponent>(&self, rb: &OneRingBuf<T, I>) -> bool {
        &&& rb.wf()
        &&& 0 <= self.index_spec() < rb.n()
        &&& 0 <= self.cached_spec() <= rb.n()
    }

    /// What is in hand from the local index up to the freshest published
    /// producer index.
    pub open spec fn avail_local<T, I: IterComponent>(&self, rb: &OneRingBuf<T, I>) -> int {
        ring_dist(self.index_spec(), rb.prod(), rb.n())
    }

    /// The handle's local index.
    pub fn index(&self) -> (r: usize)
        ensures
            r == self.index_spec(),
    {
        self.inner.index
    }

    /// The availability the handle last observed.
    pub fn cached_avail(&self) -> (r: usize)
        ensures
            r == self.cached_spec(),
    {
        self.inner.cached_avail
    }

    /// Recomputes what is in hand from the local index, against the freshest
    /// published producer index, and caches the answer.
    pub fn available<T, I: IterComponent>(&mut self, rb: &OneRingBuf<T, I>) -> (r: usize)
        requires
            old(self).wf(rb),
        ensures
            final(self).wf(rb),
            r == final(self).avail_local(rb),
            final(self).cached_spec() == r,
            final(self).index_spec() == old(self).index_spec(),
    {
        let succ_idx = rb.prod_index();
        let n = rb.len();
        self.inner.cached_avail = if self.inner.index <= succ_idx {
            succ_idx - self.inner.index
        } else {
            (n - self.inner.index) + succ_idx
        };
        self.inner.cached_avail
    }

    /// Fast-path test: is `count` known to be in hand, from the cache or a
    /// fresh read?  After a backward move the cache may overstate, so a
    /// `true` from the cache is only as good as the last synchronised walk.
    pub fn check<T, I: IterComponent>(&mut self, rb: &OneRingBuf<T, I>, count: usize) -> (r:
        bool)
        requires
            old(self).wf(rb),
        ensures
            final(self).wf(rb),
            final(self).index_spec() == old(self).index_spec(),
            r == (old(self).cached_spec() >= count || final(self).avail_local(rb) >= count),
            r ==> count <= rb.n(),
    {
        if self.inner.cached_avail >= count {
            true
        } else {
            self.available(rb) >= count
        }
    }

    /// Advances the local index by `count` slots; nothing is published.
    pub fn advance<T, I: IterComponent>(&mut self, rb: &OneRingBuf<T, I>, count: usize)
        requires
            old(self).wf(rb),
            count as int <= rb.n(),
        ensures
            final(self).wf(rb),
            final(self).index_spec() == ring_pos(old(self).index_spec(), count as int, rb.n()),
            final(self).cached_spec() == if old(self).cached_spec() >= count {
                old(self).cached_spec() - count
            } else {
                0
            },
    {
        let n = rb.len();
        let idx = self.inner.index;
        self.inner.index = if count < n - idx {
            idx + count
        } else {
            count - (n - idx)
        };
        self.inner.cached_avail = if self.inner.cached_avail >= count {
            self.inner.cached_avail - count
        } else {
            0
        };
    }

    /// Moves the local index `count` slots backwards, wrapping if necessary;
    /// nothing is published.
    pub fn go_back<T, I: IterComponent>(&mut self, rb: &OneRingBuf<T, I>, count: usize)
        requires
            old(self).wf(rb),
            old(self).cached_spec() + count <= rb.n(),
        ensures
            final(self).wf(rb),
            final(self).index_spec() == ring_back(old(self).index_spec(), count as int, rb.n()),
            count as int <= rb.n() ==> ring_pos(final(self).index_spec(), count as int, rb.n())
                == old(self).index_spec(),
            final(self).cached_spec() == old(self).cached_spec() + count,
    {
        let n = rb.len();
        let idx = self.inner.index;
        self.inner.index = if idx < count {
            n - count + idx
        } else {
            idx - count
        };
        self.inner.cached_avail = self.inner.cached_avail + count;
    }

    /// Places the local index anywhere inside the ring.  The index must stay
    /// between the consumer's and the producer's for the published state to
    /// remain meaningful once synchronised.
    pub fn set_index<T, I: IterComponent>(&mut self, rb: &OneRingBuf<T, I>, index: usize)
        requires
            old(self).wf(rb),
            index < rb.n(),
        ensures
            final(self).wf(rb),
            final(self).index_spec() == index,
            final(self).cached_spec() == old(self).cached_spec(),
    {
        self.inner.index = index;
    }

    /// Moves the local index up to its successor's — the producer's —
    /// published position; nothing is published.
    pub fn reset_index<T, I: IterComponent>(&mut self, rb: &OneRingBuf<T, I>)
        requires
            old(self).wf(rb),
        ensures
            final(self).wf(rb),
            final(self).index_spec() == rb.prod(),
            final(self).cached_spec() == old(self).cached_spec(),
    {
        self.inner.index = rb.prod_index();
    }

    /// Publishes the local index as the worker's, letting the consumer move
    /// on.  The index must lie between the consumer's and the producer's
    /// published positions.
    pub fn sync_index<T, I: MutIterComp>(&self, rb: &mut OneRingBuf<T, I>)
        requires
            self.wf(old(rb)),
            ring_dist(old(rb).cons(), self.index_spec(), old(rb).n()) <= ring_dist(
                old(rb).cons(),
                old(rb).prod(),
                old(rb).n(),
            ),
        ensures
            final(rb).wf(),
            final(rb).n() == old(rb).n(),
            old(rb).same_slots(final(rb)),
            old(rb).same_wakers(final(rb)),
            old(rb).same_hist(final(rb)),
            final(rb).alive() == old(rb).alive(),
            final(rb).prod() == old(rb).prod(),
            final(rb).cons() == old(rb).cons(),
            final(rb).work() == self.index_spec(),
            final(rb).avail_cons() == ring_dist(
                old(rb).cons(),
                self.index_spec(),
                old(rb).n(),
            ),
            final(rb).avail_prod() == old(rb).avail_prod(),
            self.wf(final(rb)),
    {
        proof {
            I::mutable_is_set();
            let n = old(rb).n();
            lemma_dist_additive(old(rb).cons(), old(rb).work(), old(rb).prod(), n);
            lemma_dist_between(old(rb).cons(), self.index_spec(), old(rb).prod(), n);
        }
        rb.publish_work(self.inner.index);
    }

    /// Publishes the local index and yields back the ordinary worker handle.
    pub fn attach<T, I: MutIterComp>(self, rb: &mut OneRingBuf<T, I>) -> (r: WorkIter)
        requires
            self.wf(old(rb)),
            ring_dist(old(rb).cons(), self.index_spec(), old(rb).n()) <= ring_dist(
                old(rb).cons(),
                old(rb).prod(),
                old(rb).n(),
            ),
        ensures
            final(rb).wf(),
            r.wf(final(rb)),
            r.index_spec() == self.index_spec(),
            r.cached_spec() == 0,
            final(rb).n() == old(rb).n(),
            old(rb).same_slots(final(rb)),
            old(rb).same_wakers(final(rb)),
            old(rb).same_hist(final(rb)),
            final(rb).alive() == old(rb).alive(),
            final(rb).prod() == old(rb).prod(),
            final(rb).cons() == old(rb).cons(),
            final(rb).work() == self.index_spec(),
            final(rb).avail_cons() == ring_dist(
                old(rb).cons(),
                self.index_spec(),
                old(rb).n(),
            ),
            final(rb).avail_prod() == old(rb).avail_prod(),
    {
        self.sync_index(rb);
        WorkIter { index: self.inner.index, cached_avail: 0 }
    }

    /// A copy of the element at the local index, for rewriting it with
    /// [`Self::set_item`]; `None` when nothing is known to be in hand.
    pub fn get_mut<T: Copy, I: IterComponent>(&mut self, rb: &OneRingBuf<T, I>) -> (r: Option<
        T>)
        requires
            old(self).wf(rb),
        ensures
            final(self).wf(rb),
            final(self).index_spec() == old(self).index_spec(),
            r is Some <==> (old(self).cached_spec() >= 1 || final(self).avail_local(rb) >= 1),
            r matches Some(v) ==> v == rb.items()[final(self).index_spec()],
    {
        if !self.check(rb, 1) {
            return None;
        }
        Some(*rb.read_slot(self.inner.index))
    }

    /// Writes `value` over the element at the local index, without
    /// advancing; `None` and no change when nothing is known to be in hand.
    pub fn set_item<T, I: IterComponent>(&mut self, rb: &mut OneRingBuf<T, I>, value: T) -> (r:
        Option<()>)
        requires
            old(self).wf(old(rb)),
        ensures
            final(self).wf(final(rb)),
            final(rb).wf(),
            final(rb).n() == old(rb).n(),
            final(self).index_spec() == old(self).index_spec(),
            final(rb).alive() == old(rb).alive(),
            old(rb).same_wakers(final(rb)),
            old(rb).same_hist(final(rb)),
            final(rb).prod() == old(rb).prod(),
            final(rb).work() == old(rb).work(),
            final(rb).cons() == old(rb).cons(),
            if old(self).cached_spec() >= 1 || old(self).avail_local(old(rb)) >= 1 {
                &&& r == Some(())
                &&& final(rb).items() == old(rb).items().update(
                    old(self).index_spec(),
                    value,
                )
                &&& final(rb).init_map() == old(rb).init_map().update(
                    old(self).index_spec(),
                    true,
                )
            } else {
                &&& r is None
                &&& *final(rb) == *old(rb)
            },
    {
        if !self.check(rb, 1) {
            return None;
        }
        rb.set_slot(self.inner.index, value);
        Some(())
    }

    /// Copies of the `count` elements from the local index on, in ring
    /// order, for rewriting them with [`Self::write_slice`]; `None` when
    /// that many are not known to be in hand.
    pub fn get_mut_slice_exact<T: Copy, I: IterComponent>(
        &mut self,
        rb: &OneRingBuf<T, I>,
        count: usize,
    ) -> (r: Option<Vec<T>>)
        requires
            old(self).wf(rb),
        ensures
            final(self).wf(rb),
            final(self).index_spec() == old(self).index_spec(),
            r is Some <==> (old(self).cached_spec() >= count
                || final(self).avail_local(rb) >= count),
            r matches Some(v) ==> v@ == ring_seg(
                rb.items(),
                final(self).index_spec(),
                count as int,
            ),
    {
        if !self.check(rb, count) {
            return None;
        }
        Some(rb.read_ring_at(self.inner.index, count))
    }

    /// Copies of everything in hand from the local index up to the
    /// producer's published position; `None` when that stretch is empty.
    pub fn get_mut_slice_avail<T: Copy, I: IterComponent>(&mut self, rb: &OneRingBuf<T, I>) -> (r:
        Option<Vec<T>>)
        requires
            old(self).wf(rb),
        ensures
            final(self).wf(rb),
            final(self).index_spec() == old(self).index_spec(),
            r is Some <==> final(self).avail_local(rb) >= 1,
            r matches Some(v) ==> v@ == ring_seg(
                rb.items(),
                final(self).index_spec(),
                final(self).avail_local(rb),
            ),
    {
        let avail = self.available(rb);
        if avail == 0 {
            return None;
        }
        Some(rb.read_ring_at(self.inner.index, avail))
    }

    /// Copies of the largest multiple of `rhs` elements in hand from the
    /// local index on; `None` when not even `rhs` are.
    pub fn get_mut_slice_multiple_of<T: Copy, I: IterComponent>(
        &mut self,
        rb: &OneRingBuf<T, I>,
        rhs: usize,
    ) -> (r: Option<Vec<T>>)
        requires
            old(self).wf(rb),
            rhs >= 1,
        ensures
            final(self).wf(rb),
            final(self).index_spec() == old(self).index_spec(),
            r is Some <==> final(self).avail_local(rb) - final(self).avail_local(rb) % (rhs as int) >= 1,
            r matches Some(v) ==> v@ == ring_seg(
                rb.items(),
                final(self).index_spec(),
                final(self).avail_local(rb) - final(self).avail_local(rb) % (rhs as int),
            ),
    {
        let avail = self.available(rb);
        proof {
            assert(avail as int % rhs as int <= avail as int) by (nonlinear_arith)
                requires
                    rhs as int >= 1,
                    avail as int >= 0,
            ;
        }
        let count = avail - avail % rhs;
        if count == 0 {
            return None;
        }
        Some(rb.read_ring_at(self.inner.index, count))
    }

    /// Writes `src` over the `src.len()` elements from the local index on,
    /// without advancing; `None` and no change when that many are not known
    /// to be in hand.
    pub fn write_slice<T: Copy, I: IterComponent>(
        &mut self,
        rb: &mut OneRingBuf<T, I>,
        src: &[T],
    ) -> (r: Option<()>)
        requires
            old(self).wf(old(rb)),
        ensures
            final(self).wf(final(rb)),
            final(rb).wf(),
            final(rb).n() == old(rb).n(),
            final(self).index_spec() == old(self).index_spec(),
            final(rb).alive() == old(rb).alive(),
            old(rb).same_wakers(final(rb)),
            old(rb).same_hist(final(rb)),
            final(rb).prod() == old(rb).prod(),
            final(rb).work() == old(rb).work(),
            final(rb).cons() == old(rb).cons(),
            if old(self).cached_spec() >= src@.len() || old(self).avail_local(old(rb))
                >= src@.len() {
                &&& r == Some(())
                &&& final(rb).items().len() == old(rb).items().len()
                &&& forall|p: int| #![trigger final(rb).items()[p]] 0 <= p < final(rb).n()
                    ==> {
                        let d = ring_dist(old(self).index_spec(), p, final(rb).n());
                        if d < src@.len() {
                            final(rb).items()[p] == src@[d] && final(rb).init_map()[p]
                        } else {
                            final(rb).items()[p] == old(rb).items()[p]
                                && final(rb).init_map()[p] == old(rb).init_map()[p]
                        }
                    }
            } else {
                &&& r is None
                &&& *final(rb) == *old(rb)
            },
    {
        let count = src.len();
        if !self.check(rb, count) {
            return None;
        }
        rb.write_ring_at(self.inner.index, src);
        Some(())
    }
}

} // verus!
