//! The producer's handle: pushes elements into the free stretch of the ring.

use vstd::prelude::*;

use crate::lemma_dist_advance;
use crate::lemma_dist_additive;
use crate::lemma_dist_extend;
use crate::lemma_dist_of_pos;
use crate::lemma_pos_add;
use crate::lemma_pos_of_dist;
use crate::ring_dist;
use crate::ring_pos;
use crate::ring_seg;
use crate::ring_buffer::OneRingBuf;
use crate::ring_buffer::iters_components::IterComponent;

verus! {

/// Handle used to push data into the buffer.
///
/// The handle keeps a private copy of its own index and a cached count of
/// slots it last saw available, so the fast path need not reread the
/// consumer's published index.
pub struct ProdIter {
    pub(crate) index: usize,
    pub(crate) cached_avail: usize,
}

impl ProdIter {
    /// The handle's own index.
    pub open(crate) spec fn index_spec(&self) -> int {
        self.index as int
    }

    /// The cached availability, a lower bound on the real one.
    pub open(crate) spec fn cached_spec(&self) -> int {
        self.cached_avail as int
    }

    /// The handle agrees with the buffer: it stands at the published producer
    /// index and its cache never promises more than is really free.
    pub open spec fn wf<T, I: IterComponent>(&self, rb: &OneRingBuf<T, I>) -> bool {
        &&& rb.wf()
        &&& self.index_spec() == rb.prod()
        &&& self.cached_spec() <= rb.avail_prod()
    }

    pub(crate) fn new<T, I: IterComponent>(rb: &OneRingBuf<T, I>) -> (r: Self)
        requires
            rb.wf(),
        ensures
            r.wf(rb),
            r.index_spec() == rb.prod(),
            r.cached_spec() == 0,
    {
        ProdIter { index: rb.prod_index(), cached_avail: 0 }
    }

    /// The handle's own index.
    pub fn index(&self) -> (r: usize)
        ensures
            r == self.index_spec(),
    {
        self.index
    }

    /// The availability the handle last observed.
    pub fn cached_avail(&self) -> (r: usize)
        ensures
            r == self.cached_spec(),
    {
        self.cached_avail
    }

    /// Recomputes how many slots the producer may fill, from the freshest
    /// published consumer index, and caches the answer.
    pub fn available<T, I: IterComponent>(&mut self, rb: &OneRingBuf<T, I>) -> (r: usize)
        requires
            old(self).wf(rb),
        ensures
            final(self).wf(rb),
            r == rb.avail_prod(),
            final(self).cached_spec() == r,
            final(self).index_spec() == old(self).index_spec(),
    {
        let succ_idx = rb.cons_index();
        let n = rb.len();
        self.cached_avail = if self.index < succ_idx {
            succ_idx - self.index - 1
        } else {
            (n - 1) - (self.index - succ_idx)
        };
        self.cached_avail
    }

    /// Fast-path test: is `count` known to be available, either from the
    /// cache or after a fresh read?
    pub fn check<T, I: IterComponent>(&mut self, rb: &OneRingBuf<T, I>, count: usize) -> (r:
        bool)
        requires
            old(self).wf(rb),
        ensures
            final(self).wf(rb),
            r == (count as int <= rb.avail_prod()),
            final(self).index_spec() == old(self).index_spec(),
    {
        if self.cached_avail >= count {
            true
        } else {
            self.available(rb) >= count
        }
    }

    /// Advances the producer by `count` slots, publishing the new index and
    /// exposing those slots to the consumer's successor.
    pub fn advance<T, I: IterComponent>(&mut self, rb: &mut OneRingBuf<T, I>, count: usize)
        requires
            old(self).wf(old(rb)),
            count as int <= old(rb).avail_prod(),
        ensures
            final(self).wf(final(rb)),
            final(rb).wf(),
            final(rb).n() == old(rb).n(),
            old(rb).same_slots(final(rb)),
            old(rb).same_wakers(final(rb)),
            old(rb).same_hist(final(rb)),
            final(rb).alive() == old(rb).alive(),
            final(rb).prod() == ring_pos(old(rb).prod(), count as int, old(rb).n()),
            final(rb).cons() == old(rb).cons(),
            final(rb).avail_prod() == old(rb).avail_prod() - count,
            final(self).index_spec() == final(rb).prod(),
            final(self).cached_spec() == if old(self).cached_spec() >= count {
                old(self).cached_spec() - count
            } else {
                0
            },
            I::mutable() ==> final(rb).work() == old(rb).work()
                && final(rb).avail_work() == old(rb).avail_work() + count
                && final(rb).avail_cons() == old(rb).avail_cons()
                && final(rb).cons_queue() == old(rb).cons_queue(),
            !I::mutable() ==> final(rb).work() == final(rb).prod()
                && final(rb).avail_cons() == old(rb).avail_cons() + count,
    {
        proof {
            let n = old(rb).n();
            let c = old(rb).cons();
            let w = old(rb).work();
            let p = old(rb).prod();
            lemma_dist_additive(c, w, p, n);
            lemma_dist_extend(c, p, n, count as int);
            lemma_dist_extend(w, p, n, count as int);
        }
        let n = rb.len();
        let idx = if count < n - self.index {
            self.index + count
        } else {
            count - (n - self.index)
        };
        proof {
            assert(idx == ring_pos(old(rb).prod(), count as int, old(rb).n()));
        }
        self.index = idx;
        rb.publish_prod(idx);
        self.cached_avail = if self.cached_avail >= count {
            self.cached_avail - count
        } else {
            0
        };
        proof {
            let n = old(rb).n();
            let c = old(rb).cons();
            let w = old(rb).work();
            let p = old(rb).prod();
            if I::mutable() {
                assert(rb.cons_queue() =~= old(rb).cons_queue());
            } else {
                lemma_dist_extend(c, p, n, count as int);
            }
        }
    }

    /// Tries to push an element by moving it into the next free slot.
    ///
    /// Returns the element back when no slot is free.  On success the new
    /// element becomes the youngest of the worker's stretch (or of the
    /// consumer's, when no worker exists).
    pub fn push<T, I: IterComponent>(&mut self, rb: &mut OneRingBuf<T, I>, value: T) -> (r:
        Result<(), T>)
        requires
            old(self).wf(old(rb)),
        ensures
            final(self).wf(final(rb)),
            final(rb).wf(),
            final(rb).n() == old(rb).n(),
            final(rb).alive() == old(rb).alive(),
            old(rb).same_wakers(final(rb)),
            if old(rb).avail_prod() >= 1 {
                &&& r == Ok::<(), T>(())
                &&& final(rb).items() == old(rb).items().update(old(rb).prod(), value)
                &&& final(rb).init_map() == old(rb).init_map().update(old(rb).prod(), true)
                &&& final(rb).prod() == ring_pos(old(rb).prod(), 1, old(rb).n())
                &&& final(rb).cons() == old(rb).cons()
                &&& final(rb).avail_prod() == old(rb).avail_prod() - 1
                &&& final(rb).pushed() == old(rb).pushed().push(value)
                &&& final(rb).popped() == old(rb).popped()
                &&& (I::mutable() ==> final(rb).work() == old(rb).work()
                    && final(rb).work_queue() == old(rb).work_queue().push(value)
                    && final(rb).avail_cons() == old(rb).avail_cons()
                    && final(rb).cons_queue() == old(rb).cons_queue())
                &&& (!I::mutable() ==> final(rb).cons_queue() == old(rb).cons_queue().push(
                    value,
                ))
                &&& (old(rb).fifo_inv() ==> final(rb).fifo_inv())
            } else {
                &&& r == Err::<(), T>(value)
                &&& *final(rb) == *old(rb)
            },
    {
        let ghost v = value;
        if !self.check(rb, 1) {
            return Err(value);
        }
        let ghost pre = *rb;
        let idx = self.index;
        rb.set_slot(idx, value);
        rb.record_push(Ghost(v));
        proof {
            lemma_queue_shapes_after_write(&pre, rb, v);
        }
        self.advance(rb, 1);
        proof {
            lemma_push_queues(&pre, rb, v);
        }
        Ok(())
    }

    /// Tries to push an element into a slot that may be uninitialised or
    /// moved-out.  In this model an overwrite never reads the stale value, so
    /// the effect coincides with [`Self::push`]; the separate entry point
    /// keeps the slot-state discipline of the interface.
    pub fn push_init<T, I: IterComponent>(&mut self, rb: &mut OneRingBuf<T, I>, value: T) -> (r:
        Result<(), T>)
        requires
            old(self).wf(old(rb)),
        ensures
            final(self).wf(final(rb)),
            final(rb).wf(),
            final(rb).n() == old(rb).n(),
            final(rb).alive() == old(rb).alive(),
            old(rb).same_wakers(final(rb)),
            if old(rb).avail_prod() >= 1 {
                &&& r == Ok::<(), T>(())
                &&& final(rb).items() == old(rb).items().update(old(rb).prod(), value)
                &&& final(rb).init_map() == old(rb).init_map().update(old(rb).prod(), true)
                &&& final(rb).prod() == ring_pos(old(rb).prod(), 1, old(rb).n())
                &&& final(rb).cons() == old(rb).cons()
                &&& final(rb).avail_prod() == old(rb).avail_prod() - 1
                &&& final(rb).pushed() == old(rb).pushed().push(value)
                &&& final(rb).popped() == old(rb).popped()
                &&& (I::mutable() ==> final(rb).work() == old(rb).work()
                    && final(rb).work_queue() == old(rb).work_queue().push(value)
                    && final(rb).avail_cons() == old(rb).avail_cons()
                    && final(rb).cons_queue() == old(rb).cons_queue())
                &&& (!I::mutable() ==> final(rb).cons_queue() == old(rb).cons_queue().push(
                    value,
                ))
                &&& (old(rb).fifo_inv() ==> final(rb).fifo_inv())
            } else {
                &&& r == Err::<(), T>(value)
                &&& *final(rb) == *old(rb)
            },
    {
        self.push(rb, value)
    }

    /// Tries to push a whole slice by copying its elements: all of it when
    /// enough slots are free, none of it otherwise.
    pub fn push_slice<T: Copy, I: IterComponent>(
        &mut self,
        rb: &mut OneRingBuf<T, I>,
        slice: &[T],
    ) -> (r: Option<()>)
        requires
            old(self).wf(old(rb)),
        ensures
            final(self).wf(final(rb)),
            final(rb).wf(),
            final(rb).n() == old(rb).n(),
            final(rb).alive() == old(rb).alive(),
            old(rb).same_wakers(final(rb)),
            if slice@.len() <= old(rb).avail_prod() {
                &&& r == Some(())
                &&& final(rb).avail_prod() == old(rb).avail_prod() - slice@.len()
                &&& final(rb).prod() == ring_pos(
                    old(rb).prod(),
                    slice@.len() as int,
                    old(rb).n(),
                )
                &&& final(rb).cons() == old(rb).cons()
                &&& final(rb).pushed() == old(rb).pushed() + slice@
                &&& final(rb).popped() == old(rb).popped()
                &&& (I::mutable() ==> final(rb).work() == old(rb).work()
                    && final(rb).work_queue() == old(rb).work_queue() + slice@
                    && final(rb).cons_queue() == old(rb).cons_queue())
                &&& (!I::mutable() ==> final(rb).cons_queue() == old(rb).cons_queue()
                    + slice@)
                &&& (old(rb).fifo_inv() ==> final(rb).fifo_inv())
            } else {
                &&& r is None
                &&& *final(rb) == *old(rb)
            },
    {
        let count = slice.len();
        if !self.check(rb, count) {
            return None;
        }
        let ghost pre = *rb;
        let mut j: usize = 0;
        while j < count
            invariant
                pre.wf(),
                self.wf(rb),
                rb.wf(),
                j <= count,
                count == slice@.len(),
                count <= pre.avail_prod(),
                rb.n() == pre.n(),
                rb.alive() == pre.alive(),
                pre.same_wakers(rb),
                rb.avail_prod() == pre.avail_prod() - j,
                rb.prod() == ring_pos(pre.prod(), j as int, pre.n()),
                rb.cons() == pre.cons(),
                rb.pushed() == pre.pushed() + slice@.take(j as int),
                rb.popped() == pre.popped(),
                I::mutable() ==> rb.work() == pre.work()
                    && rb.work_queue() == pre.work_queue() + slice@.take(j as int)
                    && rb.cons_queue() == pre.cons_queue(),
                !I::mutable() ==> rb.cons_queue() == pre.cons_queue() + slice@.take(j as int),
                pre.fifo_inv() ==> rb.fifo_inv(),
            decreases count - j,
        {
            let ghost snap = *rb;
            let res = self.push(rb, slice[j]);
            proof {
                lemma_pos_add(pre.prod(), j as int, 1, pre.n());
                assert(slice@.take(j as int).push(slice@[j as int]) =~= slice@.take(
                    j + 1,
                ));
                assert(rb.pushed() =~= pre.pushed() + slice@.take(j + 1));
                if I::mutable() {
                    assert(rb.work_queue() =~= pre.work_queue() + slice@.take(j + 1));
                } else {
                    assert(rb.cons_queue() =~= pre.cons_queue() + slice@.take(j + 1));
                }
            }
            j = j + 1;
        }
        proof {
            assert(slice@.take(count as int) =~= slice@);
        }
        Some(())
    }

    /// As [`Self::push_slice`], for slices aimed at slots that may be
    /// uninitialised or moved-out; the effect coincides in this model.
    pub fn push_slice_init<T: Copy, I: IterComponent>(
        &mut self,
        rb: &mut OneRingBuf<T, I>,
        slice: &[T],
    ) -> (r: Option<()>)
        requires
            old(self).wf(old(rb)),
        ensures
            final(self).wf(final(rb)),
            final(rb).wf(),
            final(rb).n() == old(rb).n(),
            final(rb).alive() == old(rb).alive(),
            old(rb).same_wakers(final(rb)),
            if slice@.len() <= old(rb).avail_prod() {
                &&& r == Some(())
                &&& final(rb).avail_prod() == old(rb).avail_prod() - slice@.len()
                &&& final(rb).prod() == ring_pos(
                    old(rb).prod(),
                    slice@.len() as int,
                    old(rb).n(),
                )
                &&& final(rb).cons() == old(rb).cons()
                &&& final(rb).pushed() == old(rb).pushed() + slice@
                &&& final(rb).popped() == old(rb).popped()
                &&& (I::mutable() ==> final(rb).work() == old(rb).work()
                    && final(rb).work_queue() == old(rb).work_queue() + slice@
                    && final(rb).cons_queue() == old(rb).cons_queue())
                &&& (!I::mutable() ==> final(rb).cons_queue() == old(rb).cons_queue()
                    + slice@)
                &&& (old(rb).fifo_inv() ==> final(rb).fifo_inv())
            } else {
                &&& r is None
                &&& *final(rb) == *old(rb)
            },
    {
        self.push_slice(rb, slice)
    }

    /// Tries to push a whole slice by cloning its elements: all of it when
    /// enough slots are free, none of it otherwise.
    pub fn push_slice_clone<T: Clone, I: IterComponent>(
        &mut self,
        rb: &mut OneRingBuf<T, I>,
        slice: &[T],
    ) -> (r: Option<()>)
        requires
            old(self).wf(old(rb)),
        ensures
            final(self).wf(final(rb)),
            final(rb).wf(),
            final(rb).n() == old(rb).n(),
            final(rb).alive() == old(rb).alive(),
            old(rb).same_wakers(final(rb)),
            if slice@.len() <= old(rb).avail_prod() {
                &&& r == Some(())
                &&& final(rb).avail_prod() == old(rb).avail_prod() - slice@.len()
                &&& final(rb).prod() == ring_pos(
                    old(rb).prod(),
                    slice@.len() as int,
                    old(rb).n(),
                )
                &&& final(rb).cons() == old(rb).cons()
                &&& final(rb).pushed().len() == old(rb).pushed().len() + slice@.len()
                &&& final(rb).pushed().take(old(rb).pushed().len() as int) == old(
                    rb,
                ).pushed()
                &&& forall|k: int| 0 <= k < slice@.len()
                    ==> vstd::pervasive::cloned::<T>(
                        slice@[k],
                        #[trigger] final(rb).pushed()[old(rb).pushed().len() + k],
                    )
                &&& final(rb).popped() == old(rb).popped()
                &&& (I::mutable() ==> final(rb).work() == old(rb).work()
                    && final(rb).work_queue().len() == old(rb).work_queue().len()
                        + slice@.len()
                    && final(rb).work_queue().take(old(rb).work_queue().len() as int)
                        == old(rb).work_queue()
                    && (forall|k: int| 0 <= k < slice@.len()
                        ==> vstd::pervasive::cloned::<T>(
                            slice@[k],
                            #[trigger] final(rb).work_queue()[old(rb).work_queue().len()
                                + k],
                        ))
                    && final(rb).cons_queue() == old(rb).cons_queue())
                &&& (!I::mutable() ==> final(rb).cons_queue().len() == old(
                    rb,
                ).cons_queue().len() + slice@.len()
                    && final(rb).cons_queue().take(old(rb).cons_queue().len() as int) == old(
                        rb,
                    ).cons_queue()
                    && forall|k: int| 0 <= k < slice@.len()
                        ==> vstd::pervasive::cloned::<T>(
                            slice@[k],
                            #[trigger] final(rb).cons_queue()[old(rb).cons_queue().len()
                                + k],
                        ))
                &&& (old(rb).fifo_inv() ==> final(rb).fifo_inv())
            } else {
                &&& r is None
                &&& *final(rb) == *old(rb)
            },
    {
        let count = slice.len();
        if !self.check(rb, count) {
            return None;
        }
        let ghost pre = *rb;
        let mut j: usize = 0;
        while j < count
            invariant
                pre.wf(),
                self.wf(rb),
                rb.wf(),
                j <= count,
                count == slice@.len(),
                count <= pre.avail_prod(),
                rb.n() == pre.n(),
                rb.alive() == pre.alive(),
                pre.same_wakers(rb),
                rb.avail_prod() == pre.avail_prod() - j,
                rb.prod() == ring_pos(pre.prod(), j as int, pre.n()),
                rb.cons() == pre.cons(),
                rb.pushed().len() == pre.pushed().len() + j,
                rb.pushed().take(pre.pushed().len() as int) == pre.pushed(),
                forall|k: int| 0 <= k < j
                    ==> vstd::pervasive::cloned::<T>(
                        slice@[k],
                        #[trigger] rb.pushed()[pre.pushed().len() + k],
                    ),
                rb.popped() == pre.popped(),
                I::mutable() ==> rb.work() == pre.work()
                    && rb.work_queue().len() == pre.work_queue().len() + j
                    && rb.work_queue().take(pre.work_queue().len() as int)
                        == pre.work_queue()
                    && (forall|k: int| 0 <= k < j
                        ==> vstd::pervasive::cloned::<T>(
                            slice@[k],
                            #[trigger] rb.work_queue()[pre.work_queue().len() + k],
                        ))
                    && rb.cons_queue() == pre.cons_queue(),
                !I::mutable() ==> rb.cons_queue().len() == pre.cons_queue().len() + j
                    && rb.cons_queue().take(pre.cons_queue().len() as int)
                        == pre.cons_queue()
                    && (forall|k: int| 0 <= k < j
                        ==> vstd::pervasive::cloned::<T>(
                            slice@[k],
                            #[trigger] rb.cons_queue()[pre.cons_queue().len() + k],
                        )),
                pre.fifo_inv() ==> rb.fifo_inv(),
            decreases count - j,
        {
            let ghost snap = *rb;
            let v = slice[j].clone();
            let res = self.push(rb, v);
            proof {
                lemma_pos_add(pre.prod(), j as int, 1, pre.n());
                assert(rb.pushed() == snap.pushed().push(v));
                assert(rb.pushed().take(pre.pushed().len() as int) =~= pre.pushed());
                if I::mutable() {
                    assert(rb.work_queue().take(pre.work_queue().len() as int)
                        =~= pre.work_queue());
                    assert(rb.cons_queue() =~= pre.cons_queue());
                } else {
                    assert(rb.cons_queue().take(pre.cons_queue().len() as int)
                        =~= pre.cons_queue());
                }
            }
            j = j + 1;
        }
        Some(())
    }

    /// As [`Self::push_slice_clone`], for slices aimed at slots that may be
    /// uninitialised or moved-out; the effect coincides in this model.
    pub fn push_slice_clone_init<T: Clone, I: IterComponent>(
        &mut self,
        rb: &mut OneRingBuf<T, I>,
        slice: &[T],
    ) -> (r: Option<()>)
        requires
            old(self).wf(old(rb)),
        ensures
            final(self).wf(final(rb)),
            final(rb).wf(),
            final(rb).n() == old(rb).n(),
            final(rb).alive() == old(rb).alive(),
            old(rb).same_wakers(final(rb)),
            if slice@.len() <= old(rb).avail_prod() {
                &&& r == Some(())
                &&& final(rb).avail_prod() == old(rb).avail_prod() - slice@.len()
                &&& final(rb).prod() == ring_pos(
                    old(rb).prod(),
                    slice@.len() as int,
                    old(rb).n(),
                )
                &&& final(rb).cons() == old(rb).cons()
                &&& final(rb).pushed().len() == old(rb).pushed().len() + slice@.len()
                &&& final(rb).pushed().take(old(rb).pushed().len() as int) == old(
                    rb,
                ).pushed()
                &&& forall|k: int| 0 <= k < slice@.len()
                    ==> vstd::pervasive::cloned::<T>(
                        slice@[k],
                        #[trigger] final(rb).pushed()[old(rb).pushed().len() + k],
                    )
                &&& final(rb).popped() == old(rb).popped()
                &&& (old(rb).fifo_inv() ==> final(rb).fifo_inv())
            } else {
                &&& r is None
                &&& *final(rb) == *old(rb)
            },
    {
        self.push_slice_clone(rb, slice)
    }

    /// Writes `value` into the next free slot without advancing; the caller
    /// commits it with [`Self::advance`].  Safe whether or not the slot was
    /// initialised.  `None` and no change when no slot is free.
    pub fn get_next_item_mut_init<T, I: IterComponent>(
        &mut self,
        rb: &mut OneRingBuf<T, I>,
        value: T,
    ) -> (r: Option<()>)
        requires
            old(self).wf(old(rb)),
        ensures
            final(self).wf(final(rb)),
            final(rb).wf(),
            final(rb).n() == old(rb).n(),
            final(rb).alive() == old(rb).alive(),
            old(rb).same_wakers(final(rb)),
            old(rb).same_hist(final(rb)),
            if old(rb).avail_prod() >= 1 {
                &&& r == Some(())
                &&& final(rb).items() == old(rb).items().update(old(rb).prod(), value)
                &&& final(rb).init_map() == old(rb).init_map().update(old(rb).prod(), true)
                &&& final(rb).prod() == old(rb).prod()
                &&& final(rb).work() == old(rb).work()
                &&& final(rb).cons() == old(rb).cons()
                &&& final(rb).cons_queue() == old(rb).cons_queue()
                &&& final(rb).work_queue() == old(rb).work_queue()
            } else {
                &&& r is None
                &&& *final(rb) == *old(rb)
            },
    {
        if !self.check(rb, 1) {
            return None;
        }
        let ghost pre = *rb;
        rb.set_slot(self.index, value);
        proof {
            lemma_queue_shapes_after_write(&pre, rb, value);
        }
        Some(())
    }

    /// Copies of everything in the free stretch ahead of the producer, in
    /// ring order; `None` when no slot is free.  These are stale values: the
    /// caller overwrites them and then commits with [`Self::advance`].
    pub fn get_mut_slice_avail<T: Copy, I: IterComponent>(&mut self, rb: &OneRingBuf<T, I>) -> (r:
        Option<Vec<T>>)
        requires
            old(self).wf(rb),
        ensures
            final(self).wf(rb),
            final(self).index_spec() == old(self).index_spec(),
            r is Some <==> rb.avail_prod() >= 1,
            r matches Some(v) ==> v@ == ring_seg(rb.items(), rb.prod(), rb.avail_prod()),
    {
        let avail = self.available(rb);
        if avail == 0 {
            return None;
        }
        Some(rb.read_ring_at(self.index, avail))
    }
}

/// After the producer's slot is overwritten (index not yet advanced), the
/// stretches of the other participants read as before.
proof fn lemma_queue_shapes_after_write<T, I: IterComponent>(
    pre: &OneRingBuf<T, I>,
    post: &OneRingBuf<T, I>,
    value: T,
)
    requires
        pre.wf(),
        pre.avail_prod() >= 1,
        post.n() == pre.n(),
        post.prod() == pre.prod(),
        post.work() == pre.work(),
        post.cons() == pre.cons(),
        post.items() == pre.items().update(pre.prod(), value),
        post.init_map() == pre.init_map().update(pre.prod(), true),
    ensures
        post.cons_queue() == pre.cons_queue(),
        post.work_queue() == pre.work_queue(),
{
    let n = pre.n();
    let c = pre.cons();
    let w = pre.work();
    let p = pre.prod();
    lemma_dist_additive(c, w, p, n);
    assert forall|i: int| 0 <= i < pre.avail_cons() implies post.items()[ring_pos(c, i, n)]
        == pre.items()[ring_pos(c, i, n)] by {
        lemma_dist_of_pos(c, i, n);
        lemma_pos_of_dist(c, p, n);
        if ring_pos(c, i, n) == p {
            assert(ring_dist(c, p, n) == i);
        }
    }
    assert forall|i: int| 0 <= i < pre.avail_work() implies post.items()[ring_pos(w, i, n)]
        == pre.items()[ring_pos(w, i, n)] by {
        lemma_dist_of_pos(w, i, n);
        lemma_pos_of_dist(w, p, n);
        if ring_pos(w, i, n) == p {
            assert(ring_dist(w, p, n) == i);
        }
    }
    assert(post.cons_queue() =~= pre.cons_queue());
    assert(post.work_queue() =~= pre.work_queue());
}

/// After the producer's advance by one over a freshly written slot, that
/// slot has become the youngest of its successor's stretch.
proof fn lemma_push_queues<T, I: IterComponent>(
    pre: &OneRingBuf<T, I>,
    post: &OneRingBuf<T, I>,
    value: T,
)
    requires
        pre.wf(),
        post.wf(),
        pre.avail_prod() >= 1,
        post.n() == pre.n(),
        post.prod() == ring_pos(pre.prod(), 1, pre.n()),
        post.work() == if I::mutable() { pre.work() } else { post.prod() },
        post.cons() == pre.cons(),
        post.items() == pre.items().update(pre.prod(), value),
        post.init_map() == pre.init_map().update(pre.prod(), true),
        post.pushed() == pre.pushed().push(value),
        post.popped() == pre.popped(),
    ensures
        I::mutable() ==> post.work_queue() == pre.work_queue().push(value),
        !I::mutable() ==> post.cons_queue() == pre.cons_queue().push(value),
        pre.fifo_inv() ==> post.fifo_inv(),
{
    let n = pre.n();
    let c = pre.cons();
    let w = pre.work();
    let p = pre.prod();
    lemma_dist_additive(c, w, p, n);
    lemma_dist_extend(w, p, n, 1);
    lemma_dist_extend(c, p, n, 1);
    if I::mutable() {
        assert(post.avail_work() == pre.avail_work() + 1);
        assert forall|i: int| 0 <= i < post.avail_work() implies post.work_queue()[i]
            == pre.work_queue().push(value)[i] by {
            lemma_dist_of_pos(w, i, n);
            lemma_pos_of_dist(w, p, n);
            if i < pre.avail_work() {
                if ring_pos(w, i, n) == p {
                    assert(ring_dist(w, p, n) == i);
                }
            } else {
                assert(i == ring_dist(w, p, n));
                assert(ring_pos(w, i, n) == p);
            }
        }
        assert(post.work_queue() =~= pre.work_queue().push(value));
    } else {
        assert(post.avail_cons() == pre.avail_cons() + 1);
        assert forall|i: int| 0 <= i < post.avail_cons() implies post.cons_queue()[i]
            == pre.cons_queue().push(value)[i] by {
            lemma_dist_of_pos(c, i, n);
            lemma_pos_of_dist(c, p, n);
            if i < pre.avail_cons() {
                if ring_pos(c, i, n) == p {
                    assert(ring_dist(c, p, n) == i);
                }
            } else {
                assert(i == ring_dist(c, p, n));
                assert(ring_pos(c, i, n) == p);
            }
        }
        assert(post.cons_queue() =~= pre.cons_queue().push(value));
        if pre.fifo_inv() {
            assert(post.pushed() =~= post.popped() + post.cons_queue());
            assert forall|i: int| 0 <= i < post.avail_cons() implies post.init_map()[ring_pos(
                c,
                i,
                n,
            )] by {
                lemma_dist_of_pos(c, i, n);
                lemma_pos_of_dist(c, p, n);
                if i < pre.avail_cons() {
                } else {
                    assert(ring_pos(c, i, n) == p);
                }
            }
        }
    }
}

} // verus!
