//! The worker's handle: mutates elements in place between the producer and
//! the consumer.

use vstd::prelude::*;

use crate::lemma_dist_advance;
use crate::lemma_dist_additive;
use crate::lemma_dist_extend;
use crate::lemma_dist_between;
use crate::lemma_dist_of_pos;
use crate::lemma_pos_add;
use crate::lemma_pos_of_dist;
use crate::ring_dist;
use crate::ring_pos;
use crate::ring_seg;
use crate::ring_buffer::OneRingBuf;
use crate::ring_buffer::iters_components::IterComponent;
use crate::ring_buffer::iters_components::MutIterComp;

verus! {

/// Handle used to mutate elements in place, on mutable buffers only.
pub struct WorkIter {
    pub(crate) index: usize,
    pub(crate) cached_avail: usize,
}

impl WorkIter {
    /// The handle's own index.
    pub open(crate) spec fn index_spec(&self) -> int {
        self.index as int
    }

    /// The cached availability, a lower bound on the real one.
    pub open(crate) spec fn cached_spec(&self) -> int {
        self.cached_avail as int
    }

    /// The handle agrees with the buffer: it stands at the published worker
    /// index and its cache never promises more than is really there.
    pub open spec fn wf<T, I: IterComponent>(&self, rb: &OneRingBuf<T, I>) -> bool {
        &&& rb.wf()
        &&& self.index_spec() == rb.work()
        &&& self.cached_spec() <= rb.avail_work()
    }

    pub(crate) fn new<T, I: IterComponent>(rb: &OneRingBuf<T, I>) -> (r: Self)
        requires
            rb.wf(),
        ensures
            r.wf(rb),
            r.index_spec() == rb.work(),
            r.cached_spec() == 0,
    {
        WorkIter { index: rb.work_index(), cached_avail: 0 }
    }

    /// The handle's own index.
    pub fn index(&self) -> (r: usize)
        ensures
            r == self.index_spec(),
    {
        self.index
    }

    /// The availability the handle last observed.
    pub fn cached_avail(&self) -> (r: usize)
        ensures
            r == self.cached_spec(),
    {
        self.cached_avail
    }

    /// Recomputes how many elements the worker has in hand, from the
    /// freshest published producer index, and caches the answer.
    pub fn available<T, I: IterComponent>(&mut self, rb: &OneRingBuf<T, I>) -> (r: usize)
        requires
            old(self).wf(rb),
        ensures
            final(self).wf(rb),
            r == rb.avail_work(),
            final(self).cached_spec() == r,
            final(self).index_spec() == old(self).index_spec(),
    {
        let succ_idx = rb.prod_index();
        let n = rb.len();
        self.cached_avail = if self.index <= succ_idx {
            succ_idx - self.index
        } else {
            (n - self.index) + succ_idx
        };
        self.cached_avail
    }

    /// Fast-path test: is `count` known to be available, either from the
    /// cache or after a fresh read?
    pub fn check<T, I: IterComponent>(&mut self, rb: &OneRingBuf<T, I>, count: usize) -> (r:
        bool)
        requires
            old(self).wf(rb),
        ensures
            final(self).wf(rb),
            r == (count as int <= rb.avail_work()),
            final(self).index_spec() == old(self).index_spec(),
    {
        if self.cached_avail >= count {
            true
        } else {
            self.available(rb) >= count
        }
    }

    /// Advances the worker by `count` slots, publishing the new index and
    /// handing those elements over to the consumer.
    pub fn advance<T, I: MutIterComp>(&mut self, rb: &mut OneRingBuf<T, I>, count: usize)
        requires
            old(self).wf(old(rb)),
            count as int <= old(rb).avail_work(),
        ensures
            final(self).wf(final(rb)),
            final(rb).wf(),
            final(rb).n() == old(rb).n(),
            old(rb).same_slots(final(rb)),
            old(rb).same_wakers(final(rb)),
            old(rb).same_hist(final(rb)),
            final(rb).alive() == old(rb).alive(),
            final(rb).work() == ring_pos(old(rb).work(), count as int, old(rb).n()),
            final(rb).prod() == old(rb).prod(),
            final(rb).cons() == old(rb).cons(),
            final(rb).avail_work() == old(rb).avail_work() - count,
            final(rb).avail_cons() == old(rb).avail_cons() + count,
            final(rb).avail_prod() == old(rb).avail_prod(),
            final(rb).work_queue() == old(rb).work_queue().subrange(
                count as int,
                old(rb).avail_work(),
            ),
            final(rb).cons_queue() == old(rb).cons_queue() + old(rb).work_queue().take(
                count as int,
            ),
            final(self).index_spec() == final(rb).work(),
            final(self).cached_spec() == if old(self).cached_spec() >= count {
                old(self).cached_spec() - count
            } else {
                0
            },
    {
        proof {
            I::mutable_is_set();
            let n = old(rb).n();
            let c = old(rb).cons();
            let w = old(rb).work();
            let p = old(rb).prod();
            lemma_dist_additive(c, w, p, n);
            lemma_dist_advance(w, p, n, count as int);
            lemma_dist_extend(c, w, n, count as int);
        }
        let n = rb.len();
        let idx = if count < n - self.index {
            self.index + count
        } else {
            count - (n - self.index)
        };
        proof {
            assert(idx == ring_pos(old(rb).work(), count as int, old(rb).n()));
        }
        self.index = idx;
        rb.publish_work(idx);
        self.cached_avail = if self.cached_avail >= count {
            self.cached_avail - count
        } else {
            0
        };
        proof {
            let n = old(rb).n();
            let c = old(rb).cons();
            let w = old(rb).work();
            let d = old(rb).avail_work();
            let dc = old(rb).avail_cons();
            assert forall|i: int| 0 <= i < d - count implies rb.work_queue()[i] == old(
                rb,
            ).work_queue().subrange(count as int, d)[i] by {
                lemma_pos_add(w, count as int, i, n);
            }
            assert(rb.work_queue() =~= old(rb).work_queue().subrange(count as int, d));
            assert forall|i: int| 0 <= i < dc + count implies rb.cons_queue()[i] == (old(
                rb,
            ).cons_queue() + old(rb).work_queue().take(count as int))[i] by {
                if i < dc {
                } else {
                    lemma_pos_add(c, dc, i - dc, n);
                    lemma_pos_of_dist(c, w, n);
                }
            }
            assert(rb.cons_queue() =~= old(rb).cons_queue() + old(rb).work_queue().take(
                count as int,
            ));
        }
    }

    /// Moves the worker's index up to the producer's, handing everything it
    /// had over to the consumer.
    pub fn reset_index<T, I: MutIterComp>(&mut self, rb: &mut OneRingBuf<T, I>)
        requires
            old(self).wf(old(rb)),
        ensures
            final(self).wf(final(rb)),
            final(rb).wf(),
            final(rb).n() == old(rb).n(),
            old(rb).same_slots(final(rb)),
            old(rb).same_wakers(final(rb)),
            old(rb).same_hist(final(rb)),
            final(rb).alive() == old(rb).alive(),
            final(rb).work() == old(rb).prod(),
            final(rb).prod() == old(rb).prod(),
            final(rb).cons() == old(rb).cons(),
            final(rb).avail_work() == 0,
            final(rb).avail_cons() == old(rb).avail_cons() + old(rb).avail_work(),
            final(rb).avail_prod() == old(rb).avail_prod(),
            final(self).cached_spec() == 0,
    {
        proof {
            I::mutable_is_set();
            let n = old(rb).n();
            lemma_dist_additive(old(rb).cons(), old(rb).work(), old(rb).prod(), n);
            lemma_dist_extend(old(rb).cons(), old(rb).work(), n, old(rb).avail_work());
            lemma_pos_of_dist(old(rb).work(), old(rb).prod(), n);
        }
        let new_idx = rb.prod_index();
        self.index = new_idx;
        self.cached_avail = 0;
        rb.publish_work(new_idx);
    }

    /// A copy of the oldest element in the worker's hand, for rewriting it
    /// with [`Self::set_item`]; `None` when the worker holds nothing.
    pub fn get_mut<T: Copy, I: IterComponent>(&mut self, rb: &OneRingBuf<T, I>) -> (r: Option<
        T>)
        requires
            old(self).wf(rb),
        ensures
            final(self).wf(rb),
            final(self).index_spec() == old(self).index_spec(),
            r is Some <==> rb.avail_work() >= 1,
            r matches Some(v) ==> v == rb.items()[rb.work()] && v == rb.work_queue()[0],
    {
        if !self.check(rb, 1) {
            return None;
        }
        Some(*rb.read_slot(self.index))
    }

    /// Writes `value` over the oldest element in the worker's hand, without
    /// advancing; `None` and no change when the worker holds nothing.
    pub fn set_item<T, I: IterComponent>(&mut self, rb: &mut OneRingBuf<T, I>, value: T) -> (r:
        Option<()>)
        requires
            old(self).wf(old(rb)),
        ensures
            final(self).wf(final(rb)),
            final(rb).wf(),
            final(rb).n() == old(rb).n(),
            final(rb).alive() == old(rb).alive(),
            old(rb).same_wakers(final(rb)),
            old(rb).same_hist(final(rb)),
            final(rb).prod() == old(rb).prod(),
            final(rb).work() == old(rb).work(),
            final(rb).cons() == old(rb).cons(),
            if old(rb).avail_work() >= 1 {
                &&& r == Some(())
                &&& final(rb).items() == old(rb).items().update(old(rb).work(), value)
                &&& final(rb).work_queue() == old(rb).work_queue().update(0, value)
                &&& final(rb).cons_queue() == old(rb).cons_queue()
            } else {
                &&& r is None
                &&& *final(rb) == *old(rb)
            },
    {
        if !self.check(rb, 1) {
            return None;
        }
        let ghost pre = *rb;
        rb.set_slot(self.index, value);
        proof {
            let n = pre.n();
            let c = pre.cons();
            let w = pre.work();
            lemma_dist_additive(c, w, pre.prod(), n);
            assert forall|i: int| 0 <= i < pre.avail_work() implies rb.work_queue()[i]
                == pre.work_queue().update(0, value)[i] by {
                lemma_dist_of_pos(w, i, n);
            }
            assert(rb.work_queue() =~= pre.work_queue().update(0, value));
            assert forall|i: int| 0 <= i < pre.avail_cons() implies rb.cons_queue()[i]
                == pre.cons_queue()[i] by {
                lemma_dist_of_pos(c, i, n);
                lemma_pos_of_dist(c, w, n);
                if ring_pos(c, i, n) == w {
                    assert(ring_dist(c, w, n) == i);
                }
            }
            assert(rb.cons_queue() =~= pre.cons_queue());
        }
        Some(())
    }

    /// Copies of the oldest `count` elements in the worker's hand, for
    /// rewriting them with [`Self::write_slice`]; `None` when fewer are
    /// available.
    pub fn get_mut_slice_exact<T: Copy, I: IterComponent>(
        &mut self,
        rb: &OneRingBuf<T, I>,
        count: usize,
    ) -> (r: Option<Vec<T>>)
        requires
            old(self).wf(rb),
        ensures
            final(self).wf(rb),
            final(self).index_spec() == old(self).index_spec(),
            r is Some <==> count as int <= rb.avail_work(),
            r matches Some(v) ==> v@ == rb.work_queue().take(count as int),
    {
        if !self.check(rb, count) {
            return None;
        }
        let r = rb.read_ring_at(self.index, count);
        proof {
            assert(r@ =~= rb.work_queue().take(count as int));
        }
        Some(r)
    }

    /// Copies of everything in the worker's hand; `None` when it holds
    /// nothing.
    pub fn get_mut_slice_avail<T: Copy, I: IterComponent>(&mut self, rb: &OneRingBuf<T, I>) -> (r:
        Option<Vec<T>>)
        requires
            old(self).wf(rb),
        ensures
            final(self).wf(rb),
            final(self).index_spec() == old(self).index_spec(),
            r is Some <==> rb.avail_work() >= 1,
            r matches Some(v) ==> v@ == rb.work_queue(),
    {
        let avail = self.available(rb);
        if avail == 0 {
            return None;
        }
        let r = self.get_mut_slice_exact(rb, avail);
        proof {
            assert(rb.work_queue().take(rb.avail_work()) =~= rb.work_queue());
        }
        r
    }

    /// Copies of the largest available multiple of `rhs` elements in the
    /// worker's hand; `None` when not even `rhs` are available.
    pub fn get_mut_slice_multiple_of<T: Copy, I: IterComponent>(
        &mut self,
        rb: &OneRingBuf<T, I>,
        rhs: usize,
    ) -> (r: Option<Vec<T>>)
        requires
            old(self).wf(rb),
            rhs >= 1,
        ensures
            final(self).wf(rb),
            final(self).index_spec() == old(self).index_spec(),
            r is Some <==> rb.avail_work() - rb.avail_work() % (rhs as int) >= 1,
            r matches Some(v) ==> v@ == rb.work_queue().take(
                rb.avail_work() - rb.avail_work() % (rhs as int),
            ),
    {
        let avail = self.available(rb);
        proof {
            assert(avail as int % rhs as int <= avail as int) by (nonlinear_arith)
                requires
                    rhs as int >= 1,
                    avail as int >= 0,
            ;
        }
        let count = avail - avail % rhs;
        if count == 0 {
            return None;
        }
        self.get_mut_slice_exact(rb, count)
    }

    /// Writes `src` over the oldest `src.len()` elements in the worker's
    /// hand, without advancing; `None` and no change when fewer are
    /// available.
    pub fn write_slice<T: Copy, I: IterComponent>(
        &mut self,
        rb: &mut OneRingBuf<T, I>,
        src: &[T],
    ) -> (r: Option<()>)
        requires
            old(self).wf(old(rb)),
        ensures
            final(self).wf(final(rb)),
            final(rb).wf(),
            final(rb).n() == old(rb).n(),
            final(rb).alive() == old(rb).alive(),
            old(rb).same_wakers(final(rb)),
            old(rb).same_hist(final(rb)),
            final(rb).prod() == old(rb).prod(),
            final(rb).work() == old(rb).work(),
            final(rb).cons() == old(rb).cons(),
            if src@.len() <= old(rb).avail_work() {
                &&& r == Some(())
                &&& final(rb).work_queue() == src@ + old(rb).work_queue().subrange(
                    src@.len() as int,
                    old(rb).avail_work(),
                )
                &&& final(rb).cons_queue() == old(rb).cons_queue()
            } else {
                &&& r is None
                &&& *final(rb) == *old(rb)
            },
    {
        let count = src.len();
        if !self.check(rb, count) {
            return None;
        }
        let ghost pre = *rb;
        let n = rb.len();
        let mut j: usize = 0;
        while j < count
            invariant
                pre.wf(),
                self.wf(rb),
                rb.wf(),
                j <= count,
                count == src@.len(),
                count as int <= pre.avail_work(),
                n == pre.n(),
                self.index_spec() == pre.work(),
                rb.n() == pre.n(),
                rb.alive() == pre.alive(),
                pre.same_wakers(rb),
                pre.same_hist(rb),
                rb.prod() == pre.prod(),
                rb.work() == pre.work(),
                rb.cons() == pre.cons(),
                rb.work_queue().len() == pre.avail_work(),
                forall|i: int| #![trigger rb.work_queue()[i]] 0 <= i < pre.avail_work()
                    ==> rb.work_queue()[i] == if i < j {
                        src@[i]
                    } else {
                        pre.work_queue()[i]
                    },
                rb.cons_queue() == pre.cons_queue(),
            decreases count - j,
        {
            let ghost snap = *rb;
            let idx = self.index;
            let pos = if j < n - idx {
                idx + j
            } else {
                j - (n - idx)
            };
            proof {
                assert(pos == ring_pos(pre.work(), j as int, pre.n()));
                lemma_dist_of_pos(pre.work(), j as int, pre.n());
                lemma_dist_additive(pre.cons(), pre.work(), pre.prod(), pre.n());
            }
            rb.set_slot(pos, src[j]);
            proof {
                let c = pre.cons();
                let w = pre.work();
                assert forall|i: int| #![trigger rb.work_queue()[i]] 0 <= i
                    < pre.avail_work() implies rb.work_queue()[i] == if i < j + 1 {
                    src@[i]
                } else {
                    pre.work_queue()[i]
                } by {
                    lemma_dist_of_pos(w, i, pre.n());
                    if ring_pos(w, i, pre.n()) == pos as int {
                        assert(i == j);
                    } else {
                        assert(rb.work_queue()[i] == snap.work_queue()[i]);
                    }
                }
                assert forall|i: int| 0 <= i < pre.avail_cons() implies rb.cons_queue()[i]
                    == snap.cons_queue()[i] by {
                    lemma_dist_of_pos(c, i, pre.n());
                    if ring_pos(c, i, pre.n()) == pos as int {
                        lemma_dist_between(c, w, pos as int, pre.n());
                    }
                }
                assert(rb.cons_queue() =~= snap.cons_queue());
            }
            j = j + 1;
        }
        proof {
            assert(rb.work_queue() =~= src@ + pre.work_queue().subrange(
                count as int,
                pre.avail_work(),
            ));
        }
        Some(())
    }
}

} // verus!
