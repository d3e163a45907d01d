//! The consumer's handle: takes elements out of the initialised stretch that
//! its successor has published.

use vstd::prelude::*;

use crate::lemma_dist_advance;
use crate::lemma_dist_additive;
use crate::lemma_dist_extend;
use crate::lemma_dist_of_pos;
use crate::lemma_pos_add;
use crate::lemma_pos_of_dist;
use crate::ring_dist;
use crate::ring_pos;
use crate::ring_seg;
use crate::ring_buffer::OneRingBuf;
use crate::ring_buffer::iters_components::IterComponent;

verus! {

/// Handle used to pop data from the buffer.
pub struct ConsIter {
    pub(crate) index: usize,
    pub(crate) cached_avail: usize,
}

impl ConsIter {
    /// The handle's own index.
    pub open(crate) spec fn index_spec(&self) -> int {
        self.index as int
    }

    /// The cached availability, a lower bound on the real one.
    pub open(crate) spec fn cached_spec(&self) -> int {
        self.cached_avail as int
    }

    /// The handle agrees with the buffer: it stands at the published
    /// consumer index and its cache never promises more than is really
    /// there.
    pub open spec fn wf<T, I: IterComponent>(&self, rb: &OneRingBuf<T, I>) -> bool {
        &&& rb.wf()
        &&& self.index_spec() == rb.cons()
        &&& self.cached_spec() <= rb.avail_cons()
    }

    pub(crate) fn new<T, I: IterComponent>(rb: &OneRingBuf<T, I>) -> (r: Self)
        requires
            rb.wf(),
        ensures
            r.wf(rb),
            r.index_spec() == rb.cons(),
            r.cached_spec() == 0,
    {
        ConsIter { index: rb.cons_index(), cached_avail: 0 }
    }

    /// The handle's own index.
    pub fn index(&self) -> (r: usize)
        ensures
            r == self.index_spec(),
    {
        self.index
    }

    /// The availability the handle last observed.
    pub fn cached_avail(&self) -> (r: usize)
        ensures
            r == self.cached_spec(),
    {
        self.cached_avail
    }

    /// Recomputes how many elements the consumer may take, from the freshest
    /// published successor index, and caches the answer.
    pub fn available<T, I: IterComponent>(&mut self, rb: &OneRingBuf<T, I>) -> (r: usize)
        requires
            old(self).wf(rb),
        ensures
            final(self).wf(rb),
            r == rb.avail_cons(),
            final(self).cached_spec() == r,
            final(self).index_spec() == old(self).index_spec(),
    {
        let succ_idx = rb.work_index();
        let n = rb.len();
        self.cached_avail = if self.index <= succ_idx {
            succ_idx - self.index
        } else {
            (n - self.index) + succ_idx
        };
        self.cached_avail
    }

    /// Fast-path test: is `count` known to be available, either from the
    /// cache or after a fresh read?
    pub fn check<T, I: IterComponent>(&mut self, rb: &OneRingBuf<T, I>, count: usize) -> (r:
        bool)
        requires
            old(self).wf(rb),
        ensures
            final(self).wf(rb),
            r == (count as int <= rb.avail_cons()),
            final(self).index_spec() == old(self).index_spec(),
    {
        if self.cached_avail >= count {
            true
        } else {
            self.available(rb) >= count
        }
    }

    /// Advances the consumer by `count` slots, publishing the new index and
    /// freeing those slots for the producer.
    pub fn advance<T, I: IterComponent>(&mut self, rb: &mut OneRingBuf<T, I>, count: usize)
        requires
            old(self).wf(old(rb)),
            count as int <= old(rb).avail_cons(),
        ensures
            final(self).wf(final(rb)),
            final(rb).wf(),
            final(rb).n() == old(rb).n(),
            old(rb).same_slots(final(rb)),
            old(rb).same_wakers(final(rb)),
            old(rb).same_hist(final(rb)),
            final(rb).alive() == old(rb).alive(),
            final(rb).cons() == ring_pos(old(rb).cons(), count as int, old(rb).n()),
            final(rb).prod() == old(rb).prod(),
            final(rb).work() == old(rb).work(),
            final(rb).avail_cons() == old(rb).avail_cons() - count,
            final(rb).avail_work() == old(rb).avail_work(),
            final(rb).avail_prod() == old(rb).avail_prod() + count,
            final(rb).cons_queue() == old(rb).cons_queue().subrange(
                count as int,
                old(rb).avail_cons(),
            ),
            final(rb).work_queue() == old(rb).work_queue(),
            final(self).index_spec() == final(rb).cons(),
            final(self).cached_spec() == if old(self).cached_spec() >= count {
                old(self).cached_spec() - count
            } else {
                0
            },
    {
        proof {
            let n = old(rb).n();
            let c = old(rb).cons();
            let w = old(rb).work();
            let p = old(rb).prod();
            lemma_dist_additive(c, w, p, n);
            lemma_dist_advance(c, w, n, count as int);
            lemma_dist_advance(c, p, n, count as int);
        }
        let n = rb.len();
        let idx = if count < n - self.index {
            self.index + count
        } else {
            count - (n - self.index)
        };
        proof {
            assert(idx == ring_pos(old(rb).cons(), count as int, old(rb).n()));
        }
        self.index = idx;
        rb.publish_cons(idx);
        self.cached_avail = if self.cached_avail >= count {
            self.cached_avail - count
        } else {
            0
        };
        proof {
            let n = old(rb).n();
            let c = old(rb).cons();
            let w = old(rb).work();
            let d = old(rb).avail_cons();
            assert forall|i: int| 0 <= i < d - count implies rb.cons_queue()[i] == old(
                rb,
            ).cons_queue().subrange(count as int, d)[i] by {
                lemma_pos_add(c, count as int, i, n);
            }
            assert(rb.cons_queue() =~= old(rb).cons_queue().subrange(count as int, d));
            assert(rb.work_queue() =~= old(rb).work_queue());
        }
    }

    /// Moves the consumer's index up to its successor's, discarding
    /// everything that was available.
    pub fn reset_index<T, I: IterComponent>(&mut self, rb: &mut OneRingBuf<T, I>)
        requires
            old(self).wf(old(rb)),
        ensures
            final(self).wf(final(rb)),
            final(rb).wf(),
            final(rb).n() == old(rb).n(),
            old(rb).same_slots(final(rb)),
            old(rb).same_wakers(final(rb)),
            old(rb).same_hist(final(rb)),
            final(rb).alive() == old(rb).alive(),
            final(rb).cons() == old(rb).work(),
            final(rb).prod() == old(rb).prod(),
            final(rb).work() == old(rb).work(),
            final(rb).avail_cons() == 0,
            final(rb).avail_work() == old(rb).avail_work(),
            final(rb).avail_prod() == old(rb).avail_prod() + old(rb).avail_cons(),
            final(self).cached_spec() == 0,
    {
        proof {
            let n = old(rb).n();
            lemma_dist_additive(old(rb).cons(), old(rb).work(), old(rb).prod(), n);
            lemma_dist_advance(old(rb).cons(), old(rb).work(), n, old(rb).avail_cons());
            lemma_dist_advance(old(rb).cons(), old(rb).prod(), n, old(rb).avail_cons());
            lemma_pos_of_dist(old(rb).cons(), old(rb).work(), n);
        }
        let new_idx = rb.work_index();
        self.index = new_idx;
        self.cached_avail = 0;
        rb.publish_cons(new_idx);
    }

    /// A reference to the next element, without advancing; `None` when
    /// nothing is available.
    pub fn peek_ref<'a, T, I: IterComponent>(&mut self, rb: &'a OneRingBuf<T, I>) -> (r:
        Option<&'a T>)
        requires
            old(self).wf(rb),
        ensures
            final(self).wf(rb),
            final(self).index_spec() == old(self).index_spec(),
            r is Some <==> rb.avail_cons() >= 1,
            r matches Some(v) ==> *v == rb.items()[rb.cons()] && *v == rb.cons_queue()[0],
    {
        if !self.check(rb, 1) {
            return None;
        }
        Some(rb.read_slot(self.index))
    }

    /// The next `count` elements as a head slice and a (possibly empty) tail
    /// slice, without advancing; `None` when fewer are available.
    pub fn peek_slice<'a, T, I: IterComponent>(
        &mut self,
        rb: &'a OneRingBuf<T, I>,
        count: usize,
    ) -> (r: Option<(&'a [T], &'a [T])>)
        requires
            old(self).wf(rb),
        ensures
            final(self).wf(rb),
            final(self).index_spec() == old(self).index_spec(),
            r is Some <==> count as int <= rb.avail_cons(),
            r matches Some(s) ==> s.0@ + s.1@ == rb.cons_queue().take(count as int)
                && s.0@.len() + s.1@.len() == count
                && (rb.cons() + count <= rb.n() ==> s.1@.len() == 0)
                && (rb.cons() + count > rb.n() ==> s.0@.len() == rb.n() - rb.cons()),
    {
        if !self.check(rb, count) {
            return None;
        }
        let r = rb.chunk(self.index, count);
        proof {
            assert(ring_seg(rb.items(), rb.cons(), count as int) =~= rb.cons_queue().take(
                count as int,
            ));
        }
        Some(r)
    }

    /// Everything available, as a head slice and a (possibly empty) tail
    /// slice, without advancing; `None` when the stretch is empty.
    pub fn peek_available<'a, T, I: IterComponent>(&mut self, rb: &'a OneRingBuf<T, I>) -> (r:
        Option<(&'a [T], &'a [T])>)
        requires
            old(self).wf(rb),
        ensures
            final(self).wf(rb),
            final(self).index_spec() == old(self).index_spec(),
            r is Some <==> rb.avail_cons() >= 1,
            r matches Some(s) ==> s.0@ + s.1@ == rb.cons_queue()
                && s.0@.len() + s.1@.len() == rb.avail_cons(),
    {
        let avail = self.available(rb);
        if avail == 0 {
            return None;
        }
        let r = self.peek_slice(rb, avail);
        proof {
            assert(rb.cons_queue().take(rb.avail_cons()) =~= rb.cons_queue());
        }
        r
    }

    /// Tries to pop the oldest available element, copying it.  The slot is
    /// left unchanged; the producer will overwrite it later.
    pub fn pop<T: Copy, I: IterComponent>(&mut self, rb: &mut OneRingBuf<T, I>) -> (r: Option<
        T>)
        requires
            old(self).wf(old(rb)),
        ensures
            final(self).wf(final(rb)),
            final(rb).wf(),
            final(rb).n() == old(rb).n(),
            final(rb).alive() == old(rb).alive(),
            old(rb).same_wakers(final(rb)),
            if old(rb).avail_cons() >= 1 {
                &&& r == Some(old(rb).cons_queue()[0])
                &&& old(rb).cons_queue()[0] == old(rb).items()[old(rb).cons()]
                &&& old(rb).same_slots(final(rb))
                &&& final(rb).cons() == ring_pos(old(rb).cons(), 1, old(rb).n())
                &&& final(rb).prod() == old(rb).prod()
                &&& final(rb).work() == old(rb).work()
                &&& final(rb).avail_cons() == old(rb).avail_cons() - 1
                &&& final(rb).avail_work() == old(rb).avail_work()
                &&& final(rb).avail_prod() == old(rb).avail_prod() + 1
                &&& final(rb).cons_queue() == old(rb).cons_queue().subrange(
                    1,
                    old(rb).avail_cons(),
                )
                &&& final(rb).work_queue() == old(rb).work_queue()
                &&& final(rb).popped() == old(rb).popped().push(old(rb).cons_queue()[0])
                &&& final(rb).pushed() == old(rb).pushed()
                &&& (old(rb).fifo_inv() ==> final(rb).fifo_inv())
            } else {
                &&& r is None
                &&& *final(rb) == *old(rb)
            },
    {
        if !self.check(rb, 1) {
            return None;
        }
        let v = *rb.read_slot(self.index);
        rb.record_pop(Ghost(v));
        self.advance(rb, 1);
        proof {
            lemma_pop_fifo(old(rb), rb);
        }
        Some(v)
    }

    /// Tries to pop the oldest available element, moving it out.  The slot
    /// then counts as uninitialised until a `*_init` producer method refills
    /// it; the stale duplicate left behind is never handed out again.
    pub fn pop_move<T: Clone, I: IterComponent>(&mut self, rb: &mut OneRingBuf<T, I>) -> (r:
        Option<T>)
        requires
            old(self).wf(old(rb)),
        ensures
            final(self).wf(final(rb)),
            final(rb).wf(),
            final(rb).n() == old(rb).n(),
            final(rb).alive() == old(rb).alive(),
            old(rb).same_wakers(final(rb)),
            if old(rb).avail_cons() >= 1 {
                &&& r matches Some(v) && vstd::pervasive::cloned::<T>(
                    old(rb).cons_queue()[0],
                    v,
                )
                &&& final(rb).items() == old(rb).items()
                &&& final(rb).init_map() == old(rb).init_map().update(old(rb).cons(), false)
                &&& final(rb).cons() == ring_pos(old(rb).cons(), 1, old(rb).n())
                &&& final(rb).prod() == old(rb).prod()
                &&& final(rb).work() == old(rb).work()
                &&& final(rb).avail_cons() == old(rb).avail_cons() - 1
                &&& final(rb).avail_prod() == old(rb).avail_prod() + 1
                &&& final(rb).cons_queue() == old(rb).cons_queue().subrange(
                    1,
                    old(rb).avail_cons(),
                )
                &&& final(rb).popped() == old(rb).popped().push(old(rb).cons_queue()[0])
                &&& final(rb).pushed() == old(rb).pushed()
                &&& (old(rb).fifo_inv() ==> final(rb).fifo_inv())
            } else {
                &&& r is None
                &&& *final(rb) == *old(rb)
            },
    {
        if !self.check(rb, 1) {
            return None;
        }
        let idx = self.index;
        let v = rb.read_slot(idx).clone();
        let ghost slot_value = rb.items()[idx as int];
        rb.record_pop(Ghost(slot_value));
        rb.clear_slot(idx);
        let ghost mid = *rb;
        proof {
            assert(mid.cons_queue() =~= old(rb).cons_queue());
        }
        self.advance(rb, 1);
        proof {
            assert(rb.cons_queue() =~= old(rb).cons_queue().subrange(
                1,
                old(rb).avail_cons(),
            ));
            lemma_pop_fifo(old(rb), rb);
        }
        Some(v)
    }

    /// Tries to pop the oldest available element, cloning it.  The slot is
    /// left unchanged.
    pub fn pop_clone<T: Clone, I: IterComponent>(&mut self, rb: &mut OneRingBuf<T, I>) -> (r:
        Option<T>)
        requires
            old(self).wf(old(rb)),
        ensures
            final(self).wf(final(rb)),
            final(rb).wf(),
            final(rb).n() == old(rb).n(),
            final(rb).alive() == old(rb).alive(),
            old(rb).same_wakers(final(rb)),
            if old(rb).avail_cons() >= 1 {
                &&& r matches Some(v) && vstd::pervasive::cloned::<T>(
                    old(rb).cons_queue()[0],
                    v,
                )
                &&& old(rb).same_slots(final(rb))
                &&& final(rb).cons() == ring_pos(old(rb).cons(), 1, old(rb).n())
                &&& final(rb).prod() == old(rb).prod()
                &&& final(rb).work() == old(rb).work()
                &&& final(rb).avail_cons() == old(rb).avail_cons() - 1
                &&& final(rb).avail_prod() == old(rb).avail_prod() + 1
                &&& final(rb).cons_queue() == old(rb).cons_queue().subrange(
                    1,
                    old(rb).avail_cons(),
                )
                &&& final(rb).popped() == old(rb).popped().push(old(rb).cons_queue()[0])
                &&& final(rb).pushed() == old(rb).pushed()
                &&& (old(rb).fifo_inv() ==> final(rb).fifo_inv())
            } else {
                &&& r is None
                &&& *final(rb) == *old(rb)
            },
    {
        if !self.check(rb, 1) {
            return None;
        }
        let idx = self.index;
        let v = rb.read_slot(idx).clone();
        let ghost slot_value = rb.items()[idx as int];
        rb.record_pop(Ghost(slot_value));
        self.advance(rb, 1);
        proof {
            lemma_pop_fifo(old(rb), rb);
        }
        Some(v)
    }

    /// Copies the next element into `dst` and advances; `None` and no change
    /// when nothing is available.
    pub fn copy_item<T: Copy, I: IterComponent>(
        &mut self,
        rb: &mut OneRingBuf<T, I>,
        dst: &mut T,
    ) -> (r: Option<()>)
        requires
            old(self).wf(old(rb)),
        ensures
            final(self).wf(final(rb)),
            final(rb).wf(),
            final(rb).n() == old(rb).n(),
            final(rb).alive() == old(rb).alive(),
            old(rb).same_wakers(final(rb)),
            if old(rb).avail_cons() >= 1 {
                &&& r == Some(())
                &&& *final(dst) == old(rb).cons_queue()[0]
                &&& old(rb).same_slots(final(rb))
                &&& final(rb).cons() == ring_pos(old(rb).cons(), 1, old(rb).n())
                &&& final(rb).prod() == old(rb).prod()
                &&& final(rb).work() == old(rb).work()
                &&& final(rb).avail_cons() == old(rb).avail_cons() - 1
                &&& final(rb).avail_prod() == old(rb).avail_prod() + 1
                &&& final(rb).cons_queue() == old(rb).cons_queue().subrange(
                    1,
                    old(rb).avail_cons(),
                )
                &&& final(rb).popped() == old(rb).popped().push(old(rb).cons_queue()[0])
                &&& final(rb).pushed() == old(rb).pushed()
                &&& (old(rb).fifo_inv() ==> final(rb).fifo_inv())
            } else {
                &&& r is None
                &&& *final(rb) == *old(rb)
                &&& *final(dst) == *old(dst)
            },
    {
        match self.pop(rb) {
            Some(v) => {
                *dst = v;
                Some(())
            },
            None => None,
        }
    }

    /// Clones the next element into `dst` and advances; `None` and no change
    /// when nothing is available.
    pub fn clone_item<T: Clone, I: IterComponent>(
        &mut self,
        rb: &mut OneRingBuf<T, I>,
        dst: &mut T,
    ) -> (r: Option<()>)
        requires
            old(self).wf(old(rb)),
        ensures
            final(self).wf(final(rb)),
            final(rb).wf(),
            final(rb).n() == old(rb).n(),
            final(rb).alive() == old(rb).alive(),
            old(rb).same_wakers(final(rb)),
            if old(rb).avail_cons() >= 1 {
                &&& r == Some(())
                &&& vstd::pervasive::cloned::<T>(old(rb).cons_queue()[0], *final(dst))
                &&& old(rb).same_slots(final(rb))
                &&& final(rb).cons() == ring_pos(old(rb).cons(), 1, old(rb).n())
                &&& final(rb).avail_cons() == old(rb).avail_cons() - 1
                &&& final(rb).avail_prod() == old(rb).avail_prod() + 1
                &&& final(rb).popped() == old(rb).popped().push(old(rb).cons_queue()[0])
                &&& final(rb).pushed() == old(rb).pushed()
                &&& (old(rb).fifo_inv() ==> final(rb).fifo_inv())
            } else {
                &&& r is None
                &&& *final(rb) == *old(rb)
                &&& *final(dst) == *old(dst)
            },
    {
        match self.pop_clone(rb) {
            Some(v) => {
                *dst = v;
                Some(())
            },
            None => None,
        }
    }

    /// Fills `dst` with the next `dst.len()` elements, copying, and
    /// advances; `None` and no change when fewer are available.
    pub fn copy_slice<T: Copy, I: IterComponent>(
        &mut self,
        rb: &mut OneRingBuf<T, I>,
        dst: &mut Vec<T>,
    ) -> (r: Option<()>)
        requires
            old(self).wf(old(rb)),
        ensures
            final(self).wf(final(rb)),
            final(rb).wf(),
            final(rb).n() == old(rb).n(),
            final(rb).alive() == old(rb).alive(),
            old(rb).same_wakers(final(rb)),
            final(dst)@.len() == old(dst)@.len(),
            if old(dst)@.len() <= old(rb).avail_cons() {
                &&& r == Some(())
                &&& final(dst)@ == old(rb).cons_queue().take(old(dst)@.len() as int)
                &&& old(rb).same_slots(final(rb))
                &&& final(rb).cons() == ring_pos(
                    old(rb).cons(),
                    old(dst)@.len() as int,
                    old(rb).n(),
                )
                &&& final(rb).prod() == old(rb).prod()
                &&& final(rb).work() == old(rb).work()
                &&& final(rb).avail_cons() == old(rb).avail_cons() - old(dst)@.len()
                &&& final(rb).avail_prod() == old(rb).avail_prod() + old(dst)@.len()
                &&& final(rb).cons_queue() == old(rb).cons_queue().subrange(
                    old(dst)@.len() as int,
                    old(rb).avail_cons(),
                )
                &&& final(rb).popped() == old(rb).popped() + old(rb).cons_queue().take(
                    old(dst)@.len() as int,
                )
                &&& final(rb).pushed() == old(rb).pushed()
                &&& (old(rb).fifo_inv() ==> final(rb).fifo_inv())
            } else {
                &&& r is None
                &&& *final(rb) == *old(rb)
                &&& final(dst)@ == old(dst)@
            },
    {
        let count = dst.len();
        if !self.check(rb, count) {
            return None;
        }
        let tmp = rb.read_ring_at(self.index, count);
        *dst = tmp;
        let ghost taken = old(rb).cons_queue().take(count as int);
        proof {
            assert(rb.cons_queue().take(count as int) =~= ring_seg(
                rb.items(),
                rb.cons(),
                count as int,
            ));
        }
        rb.record_pop_seq(Ghost(taken));
        self.advance(rb, count);
        proof {
            lemma_pop_seq_fifo(old(rb), rb, count as int);
        }
        Some(())
    }

    /// Fills `dst` with the next `dst.len()` elements, cloning, and
    /// advances; `None` and no change when fewer are available.
    pub fn clone_slice<T: Clone, I: IterComponent>(
        &mut self,
        rb: &mut OneRingBuf<T, I>,
        dst: &mut Vec<T>,
    ) -> (r: Option<()>)
        requires
            old(self).wf(old(rb)),
        ensures
            final(self).wf(final(rb)),
            final(rb).wf(),
            final(rb).n() == old(rb).n(),
            final(rb).alive() == old(rb).alive(),
            old(rb).same_wakers(final(rb)),
            final(dst)@.len() == old(dst)@.len(),
            if old(dst)@.len() <= old(rb).avail_cons() {
                &&& r == Some(())
                &&& forall|j: int| 0 <= j < old(dst)@.len()
                    ==> vstd::pervasive::cloned::<T>(
                        old(rb).cons_queue()[j],
                        #[trigger] final(dst)@[j],
                    )
                &&& old(rb).same_slots(final(rb))
                &&& final(rb).cons() == ring_pos(
                    old(rb).cons(),
                    old(dst)@.len() as int,
                    old(rb).n(),
                )
                &&& final(rb).avail_cons() == old(rb).avail_cons() - old(dst)@.len()
                &&& final(rb).avail_prod() == old(rb).avail_prod() + old(dst)@.len()
                &&& final(rb).popped() == old(rb).popped() + old(rb).cons_queue().take(
                    old(dst)@.len() as int,
                )
                &&& final(rb).pushed() == old(rb).pushed()
                &&& (old(rb).fifo_inv() ==> final(rb).fifo_inv())
            } else {
                &&& r is None
                &&& *final(rb) == *old(rb)
                &&& final(dst)@ == old(dst)@
            },
    {
        let count = dst.len();
        if !self.check(rb, count) {
            return None;
        }
        let tmp = rb.read_ring_clone_at(self.index, count);
        *dst = tmp;
        let ghost taken = old(rb).cons_queue().take(count as int);
        rb.record_pop_seq(Ghost(taken));
        self.advance(rb, count);
        proof {
            lemma_pop_seq_fifo(old(rb), rb, count as int);
        }
        Some(())
    }
}

/// Popping the head of the consumer's stretch keeps the first-in first-out
/// discipline: the history grows by exactly that head.
proof fn lemma_pop_fifo<T, I: IterComponent>(pre: &OneRingBuf<T, I>, post: &OneRingBuf<T, I>)
    requires
        pre.wf(),
        post.wf(),
        pre.avail_cons() >= 1,
        post.n() == pre.n(),
        post.cons() == ring_pos(pre.cons(), 1, pre.n()),
        post.work() == pre.work(),
        post.items() == pre.items(),
        post.init_map().len() == pre.init_map().len(),
        forall|q: int| 0 <= q < pre.n() && q != pre.cons()
            ==> post.init_map()[q] == pre.init_map()[q],
        post.avail_cons() == pre.avail_cons() - 1,
        post.cons_queue() == pre.cons_queue().subrange(1, pre.avail_cons()),
        post.popped() == pre.popped().push(pre.cons_queue()[0]),
        post.pushed() == pre.pushed(),
    ensures
        pre.fifo_inv() ==> post.fifo_inv(),
{
    if pre.fifo_inv() {
        let n = pre.n();
        let c = pre.cons();
        assert(pre.cons_queue() =~= seq![pre.cons_queue()[0]] + post.cons_queue());
        assert(post.pushed() =~= post.popped() + post.cons_queue());
        assert forall|i: int| 0 <= i < post.avail_cons() implies post.init_map()[ring_pos(
            post.cons(),
            i,
            n,
        )] by {
            lemma_pos_add(c, 1, i, n);
            lemma_dist_of_pos(c, i + 1, n);
        }
    }
}

/// Popping a whole block from the head of the consumer's stretch keeps the
/// first-in first-out discipline.
proof fn lemma_pop_seq_fifo<T, I: IterComponent>(
    pre: &OneRingBuf<T, I>,
    post: &OneRingBuf<T, I>,
    count: int,
)
    requires
        pre.wf(),
        post.wf(),
        0 <= count <= pre.avail_cons(),
        post.n() == pre.n(),
        post.cons() == ring_pos(pre.cons(), count, pre.n()),
        post.work() == pre.work(),
        post.items() == pre.items(),
        post.init_map() == pre.init_map(),
        post.avail_cons() == pre.avail_cons() - count,
        post.cons_queue() == pre.cons_queue().subrange(count, pre.avail_cons()),
        post.popped() == pre.popped() + pre.cons_queue().take(count),
        post.pushed() == pre.pushed(),
    ensures
        pre.fifo_inv() ==> post.fifo_inv(),
{
    if pre.fifo_inv() {
        let n = pre.n();
        let c = pre.cons();
        assert(pre.cons_queue() =~= pre.cons_queue().take(count) + post.cons_queue());
        assert(post.pushed() =~= post.popped() + post.cons_queue());
        assert forall|i: int| 0 <= i < post.avail_cons() implies post.init_map()[ring_pos(
            post.cons(),
            i,
            n,
        )] by {
            lemma_pos_add(c, count, i, n);
            lemma_dist_of_pos(c, count + i, n);
        }
    }
}

} // verus!
