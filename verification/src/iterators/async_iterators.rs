//! The asynchronous adapter: the same handles, with one wake slot per
//! participant.
//!
//! Each operation attempts its synchronous counterpart once.  On success it
//! wakes the downstream participant; on failure it stores the calling task's
//! wake token in its own slot and reports nothing done, so the caller's
//! runtime suspends until the counterpart's next advance signals the token.
//! Driving the suspension itself — building futures and polling them — is
//! host-runtime work and stays outside the library.

use vstd::prelude::*;

use crate::ring_buffer::OneRingBuf;
use crate::ring_buffer::iters_components::IterComponent;
use crate::ring_buffer::iters_components::MutIterComp;
use crate::ring_buffer::wrappers::wake_waker;
use crate::iterators::cons_iter::ConsIter;
use crate::iterators::detached::Detached;
use crate::iterators::prod_iter::ProdIter;
use crate::iterators::work_iter::WorkIter;
use crate::ring_pos;
use core::task::Waker;

verus! {

/// Signals a pending wake token, if one is there.
fn wake_opt(waker: Option<Waker>) {
    match waker {
        Some(w) => wake_waker(w),
        None => {},
    }
}

/// Asynchronous producer handle.
pub struct AsyncProdIter {
    pub(crate) inner: ProdIter,
}

/// Asynchronous worker handle.
pub struct AsyncWorkIter {
    pub(crate) inner: WorkIter,
}

/// Asynchronous consumer handle.
pub struct AsyncConsIter {
    pub(crate) inner: ConsIter,
}

/// Asynchronous detached worker handle.
pub struct AsyncDetached {
    pub(crate) inner: Detached,
}

impl ProdIter {
    /// Re-wraps the handle for asynchronous use.
    pub fn into_async(self) -> (r: AsyncProdIter)
        ensures
            r.inner_spec() == self,
    {
        AsyncProdIter { inner: self }
    }
}

impl WorkIter {
    /// Re-wraps the handle for asynchronous use.
    pub fn into_async(self) -> (r: AsyncWorkIter)
        ensures
            r.inner_spec() == self,
    {
        AsyncWorkIter { inner: self }
    }
}

impl ConsIter {
    /// Re-wraps the handle for asynchronous use.
    pub fn into_async(self) -> (r: AsyncConsIter)
        ensures
            r.inner_spec() == self,
    {
        AsyncConsIter { inner: self }
    }
}

impl Detached {
    /// Re-wraps the handle for asynchronous use.
    pub fn into_async(self) -> (r: AsyncDetached)
        ensures
            r.inner_spec() == self,
    {
        AsyncDetached { inner: self }
    }
}

impl AsyncProdIter {
    /// The wrapped synchronous handle.
    pub open(crate) spec fn inner_spec(&self) -> ProdIter {
        self.inner
    }

    /// The handle agrees with the buffer as its synchronous form does.
    pub open spec fn wf<T, I: IterComponent>(&self, rb: &OneRingBuf<T, I>) -> bool {
        self.inner_spec().wf(rb)
    }

    /// Unwraps the synchronous handle.
    pub fn into_sync(self) -> (r: ProdIter)
        ensures
            r == self.inner_spec(),
    {
        self.inner
    }

    /// One poll of an asynchronous push.  On success the element is pushed
    /// and the downstream participant's pending wake token is signalled; on
    /// failure the element comes back, and `waker` is left in the producer's
    /// wake slot for the consumer's next advance to signal.
    pub fn push<T, I: IterComponent>(
        &mut self,
        rb: &mut OneRingBuf<T, I>,
        value: T,
        waker: &Waker,
    ) -> (r: Result<(), T>)
        requires
            old(self).inner_spec().wf(old(rb)),
        ensures
            final(self).wf(final(rb)),
            final(rb).wf(),
            final(rb).n() == old(rb).n(),
            final(rb).alive() == old(rb).alive(),
            if old(rb).avail_prod() >= 1 {
                &&& r == Ok::<(), T>(())
                &&& final(rb).items() == old(rb).items().update(old(rb).prod(), value)
                &&& final(rb).prod() == ring_pos(old(rb).prod(), 1, old(rb).n())
                &&& final(rb).cons() == old(rb).cons()
                &&& final(rb).avail_prod() == old(rb).avail_prod() - 1
                &&& final(rb).pushed() == old(rb).pushed().push(value)
                &&& final(rb).popped() == old(rb).popped()
                &&& (I::mutable() ==> final(rb).work_queue() == old(rb).work_queue().push(
                    value,
                ) && final(rb).work_wake() is None)
                &&& (!I::mutable() ==> final(rb).cons_queue() == old(rb).cons_queue().push(
                    value,
                ) && final(rb).cons_wake() is None)
                &&& final(rb).prod_wake() == old(rb).prod_wake()
                &&& (old(rb).fifo_inv() ==> final(rb).fifo_inv())
            } else {
                &&& r == Err::<(), T>(value)
                &&& old(rb).same_slots(final(rb))
                &&& old(rb).same_hist(final(rb))
                &&& final(rb).prod() == old(rb).prod()
                &&& final(rb).work() == old(rb).work()
                &&& final(rb).cons() == old(rb).cons()
                &&& final(rb).prod_wake() is Some
                &&& final(rb).work_wake() == old(rb).work_wake()
                &&& final(rb).cons_wake() == old(rb).cons_wake()
            },
    {
        match self.inner.push(rb, value) {
            Ok(()) => {
                if I::is_mutable() {
                    let w = rb.take_work_waker();
                    wake_opt(w);
                } else {
                    let w = rb.take_cons_waker();
                    wake_opt(w);
                }
                Ok(())
            },
            Err(value) => {
                rb.store_prod_waker(waker);
                Err(value)
            },
        }
    }

    /// One poll of an asynchronous slice push, copying; all-or-nothing like
    /// its synchronous counterpart, registering `waker` when nothing fits.
    pub fn push_slice<T: Copy, I: IterComponent>(
        &mut self,
        rb: &mut OneRingBuf<T, I>,
        slice: &[T],
        waker: &Waker,
    ) -> (r: Option<()>)
        requires
            old(self).inner_spec().wf(old(rb)),
        ensures
            final(self).wf(final(rb)),
            final(rb).wf(),
            final(rb).n() == old(rb).n(),
            final(rb).alive() == old(rb).alive(),
            if slice@.len() <= old(rb).avail_prod() {
                &&& r == Some(())
                &&& final(rb).avail_prod() == old(rb).avail_prod() - slice@.len()
                &&& final(rb).pushed() == old(rb).pushed() + slice@
                &&& final(rb).popped() == old(rb).popped()
                &&& (I::mutable() ==> final(rb).work_queue() == old(rb).work_queue()
                    + slice@ && final(rb).work_wake() is None)
                &&& (!I::mutable() ==> final(rb).cons_queue() == old(rb).cons_queue()
                    + slice@ && final(rb).cons_wake() is None)
                &&& (old(rb).fifo_inv() ==> final(rb).fifo_inv())
            } else {
                &&& r is None
                &&& old(rb).same_slots(final(rb))
                &&& old(rb).same_hist(final(rb))
                &&& final(rb).prod() == old(rb).prod()
                &&& final(rb).cons() == old(rb).cons()
                &&& final(rb).prod_wake() is Some
            },
    {
        match self.inner.push_slice(rb, slice) {
            Some(()) => {
                if I::is_mutable() {
                    let w = rb.take_work_waker();
                    wake_opt(w);
                } else {
                    let w = rb.take_cons_waker();
                    wake_opt(w);
                }
                Some(())
            },
            None => {
                rb.store_prod_waker(waker);
                None
            },
        }
    }

    /// One poll of an asynchronous slice push, cloning; all-or-nothing like
    /// its synchronous counterpart, registering `waker` when nothing fits.
    pub fn push_slice_clone<T: Clone, I: IterComponent>(
        &mut self,
        rb: &mut OneRingBuf<T, I>,
        slice: &[T],
        waker: &Waker,
    ) -> (r: Option<()>)
        requires
            old(self).inner_spec().wf(old(rb)),
        ensures
            final(self).wf(final(rb)),
            final(rb).wf(),
            final(rb).n() == old(rb).n(),
            final(rb).alive() == old(rb).alive(),
            if slice@.len() <= old(rb).avail_prod() {
                &&& r == Some(())
                &&& final(rb).avail_prod() == old(rb).avail_prod() - slice@.len()
                &&& final(rb).pushed().len() == old(rb).pushed().len() + slice@.len()
                &&& final(rb).pushed().take(old(rb).pushed().len() as int) == old(
                    rb,
                ).pushed()
                &&& forall|k: int| 0 <= k < slice@.len()
                    ==> vstd::pervasive::cloned::<T>(
                        slice@[k],
                        #[trigger] final(rb).pushed()[old(rb).pushed().len() + k],
                    )
                &&& final(rb).popped() == old(rb).popped()
                &&& (old(rb).fifo_inv() ==> final(rb).fifo_inv())
            } else {
                &&& r is None
                &&& old(rb).same_slots(final(rb))
                &&& old(rb).same_hist(final(rb))
                &&& final(rb).prod() == old(rb).prod()
                &&& final(rb).cons() == old(rb).cons()
                &&& final(rb).prod_wake() is Some
            },
    {
        match self.inner.push_slice_clone(rb, slice) {
            Some(()) => {
                if I::is_mutable() {
                    let w = rb.take_work_waker();
                    wake_opt(w);
                } else {
                    let w = rb.take_cons_waker();
                    wake_opt(w);
                }
                Some(())
            },
            None => {
                rb.store_prod_waker(waker);
                None
            },
        }
    }

    /// One poll of an asynchronous in-place write of the next free slot,
    /// without advancing; registers `waker` when no slot is free.
    pub fn get_next_item_mut_init<T, I: IterComponent>(
        &mut self,
        rb: &mut OneRingBuf<T, I>,
        value: T,
        waker: &Waker,
    ) -> (r: Option<()>)
        requires
            old(self).inner_spec().wf(old(rb)),
        ensures
            final(self).wf(final(rb)),
            final(rb).wf(),
            final(rb).n() == old(rb).n(),
            old(rb).same_hist(final(rb)),
            if old(rb).avail_prod() >= 1 {
                &&& r == Some(())
                &&& final(rb).items() == old(rb).items().update(old(rb).prod(), value)
                &&& final(rb).prod() == old(rb).prod()
                &&& final(rb).cons() == old(rb).cons()
            } else {
                &&& r is None
                &&& old(rb).same_slots(final(rb))
                &&& final(rb).prod_wake() is Some
            },
    {
        match self.inner.get_next_item_mut_init(rb, value) {
            Some(()) => Some(()),
            None => {
                rb.store_prod_waker(waker);
                None
            },
        }
    }

    /// Advances the producer and signals the downstream participant's
    /// pending wake token.
    pub fn advance<T, I: IterComponent>(&mut self, rb: &mut OneRingBuf<T, I>, count: usize)
        requires
            old(self).inner_spec().wf(old(rb)),
            count as int <= old(rb).avail_prod(),
        ensures
            final(self).wf(final(rb)),
            final(rb).wf(),
            final(rb).n() == old(rb).n(),
            old(rb).same_slots(final(rb)),
            old(rb).same_hist(final(rb)),
            final(rb).prod() == ring_pos(old(rb).prod(), count as int, old(rb).n()),
            final(rb).cons() == old(rb).cons(),
            final(rb).avail_prod() == old(rb).avail_prod() - count,
            I::mutable() ==> final(rb).work_wake() is None,
            !I::mutable() ==> final(rb).cons_wake() is None,
    {
        self.inner.advance(rb, count);
        if I::is_mutable() {
            let w = rb.take_work_waker();
            wake_opt(w);
        } else {
            let w = rb.take_cons_waker();
            wake_opt(w);
        }
    }

    /// As [`ProdIter::available`].
    pub fn available<T, I: IterComponent>(&mut self, rb: &OneRingBuf<T, I>) -> (r: usize)
        requires
            old(self).inner_spec().wf(rb),
        ensures
            final(self).wf(rb),
            r == rb.avail_prod(),
    {
        self.inner.available(rb)
    }
}

impl AsyncConsIter {
    /// The wrapped synchronous handle.
    pub open(crate) spec fn inner_spec(&self) -> ConsIter {
        self.inner
    }

    /// The handle agrees with the buffer as its synchronous form does.
    pub open spec fn wf<T, I: IterComponent>(&self, rb: &OneRingBuf<T, I>) -> bool {
        self.inner_spec().wf(rb)
    }

    /// Unwraps the synchronous handle.
    pub fn into_sync(self) -> (r: ConsIter)
        ensures
            r == self.inner_spec(),
    {
        self.inner
    }

    /// One poll of an asynchronous pop.  On success the producer's pending
    /// wake token is signalled; on failure `waker` is left in the consumer's
    /// wake slot for the producer's next advance to signal.
    pub fn pop<T: Copy, I: IterComponent>(
        &mut self,
        rb: &mut OneRingBuf<T, I>,
        waker: &Waker,
    ) -> (r: Option<T>)
        requires
            old(self).inner_spec().wf(old(rb)),
        ensures
            final(self).wf(final(rb)),
            final(rb).wf(),
            final(rb).n() == old(rb).n(),
            final(rb).alive() == old(rb).alive(),
            if old(rb).avail_cons() >= 1 {
                &&& r == Some(old(rb).cons_queue()[0])
                &&& old(rb).same_slots(final(rb))
                &&& final(rb).cons() == ring_pos(old(rb).cons(), 1, old(rb).n())
                &&& final(rb).prod() == old(rb).prod()
                &&& final(rb).avail_cons() == old(rb).avail_cons() - 1
                &&& final(rb).avail_prod() == old(rb).avail_prod() + 1
                &&& final(rb).cons_queue() == old(rb).cons_queue().subrange(
                    1,
                    old(rb).avail_cons(),
                )
                &&& final(rb).popped() == old(rb).popped().push(old(rb).cons_queue()[0])
                &&& final(rb).pushed() == old(rb).pushed()
                &&& final(rb).prod_wake() is None
                &&& final(rb).cons_wake() == old(rb).cons_wake()
                &&& (old(rb).fifo_inv() ==> final(rb).fifo_inv())
            } else {
                &&& r is None
                &&& old(rb).same_slots(final(rb))
                &&& old(rb).same_hist(final(rb))
                &&& final(rb).prod() == old(rb).prod()
                &&& final(rb).work() == old(rb).work()
                &&& final(rb).cons() == old(rb).cons()
                &&& final(rb).cons_wake() is Some
                &&& final(rb).prod_wake() == old(rb).prod_wake()
            },
    {
        match self.inner.pop(rb) {
            Some(v) => {
                let w = rb.take_prod_waker();
                wake_opt(w);
                Some(v)
            },
            None => {
                rb.store_cons_waker(waker);
                None
            },
        }
    }

    /// One poll of an asynchronous peek; registers `waker` when nothing is
    /// available.  The consumer does not advance, so nothing is woken.
    pub fn peek_ref<'a, T, I: IterComponent>(
        &mut self,
        rb: &'a mut OneRingBuf<T, I>,
        waker: &Waker,
    ) -> (r: Option<&'a T>)
        requires
            old(self).inner_spec().wf(old(rb)),
        ensures
            final(self).wf(final(rb)),
            final(rb).wf(),
            old(rb).same_slots(final(rb)),
            old(rb).same_hist(final(rb)),
            final(rb).cons() == old(rb).cons(),
            final(rb).prod() == old(rb).prod(),
            final(rb).work() == old(rb).work(),
            r is Some <==> old(rb).avail_cons() >= 1,
            r matches Some(v) ==> *v == old(rb).items()[old(rb).cons()],
            r is None ==> final(rb).cons_wake() is Some,
    {
        if self.inner.check(rb, 1) {
            let idx = self.inner.index;
            Some(rb.read_slot(idx))
        } else {
            rb.store_cons_waker(waker);
            None
        }
    }

    /// One poll of an asynchronous slice peek; registers `waker` when fewer
    /// than `count` elements are available.
    pub fn peek_slice<'a, T, I: IterComponent>(
        &mut self,
        rb: &'a mut OneRingBuf<T, I>,
        count: usize,
        waker: &Waker,
    ) -> (r: Option<(&'a [T], &'a [T])>)
        requires
            old(self).inner_spec().wf(old(rb)),
        ensures
            final(self).wf(final(rb)),
            final(rb).wf(),
            old(rb).same_slots(final(rb)),
            old(rb).same_hist(final(rb)),
            final(rb).cons() == old(rb).cons(),
            final(rb).prod() == old(rb).prod(),
            final(rb).work() == old(rb).work(),
            r is Some <==> count as int <= old(rb).avail_cons(),
            r matches Some(s) ==> s.0@ + s.1@ == old(rb).cons_queue().take(count as int),
            r is None ==> final(rb).cons_wake() is Some,
    {
        if self.inner.check(rb, count) {
            let idx = self.inner.index;
            let r = rb.chunk(idx, count);
            proof {
                assert(crate::ring_seg(rb.items(), rb.cons(), count as int)
                    =~= rb.cons_queue().take(count as int));
            }
            Some(r)
        } else {
            rb.store_cons_waker(waker);
            None
        }
    }

    /// One poll of an asynchronous peek of everything available; registers
    /// `waker` when the stretch is empty.
    pub fn peek_available<'a, T, I: IterComponent>(
        &mut self,
        rb: &'a mut OneRingBuf<T, I>,
        waker: &Waker,
    ) -> (r: Option<(&'a [T], &'a [T])>)
        requires
            old(self).inner_spec().wf(old(rb)),
        ensures
            final(self).wf(final(rb)),
            final(rb).wf(),
            old(rb).same_slots(final(rb)),
            old(rb).same_hist(final(rb)),
            final(rb).cons() == old(rb).cons(),
            final(rb).prod() == old(rb).prod(),
            final(rb).work() == old(rb).work(),
            r is Some <==> old(rb).avail_cons() >= 1,
            r matches Some(s) ==> s.0@ + s.1@ == old(rb).cons_queue(),
            r is None ==> final(rb).cons_wake() is Some,
    {
        let avail = self.inner.available(rb);
        if avail == 0 {
            rb.store_cons_waker(waker);
            return None;
        }
        let idx = self.inner.index;
        let r = rb.chunk(idx, avail);
        proof {
            assert(crate::ring_seg(rb.items(), rb.cons(), rb.avail_cons())
                =~= rb.cons_queue());
        }
        Some(r)
    }

    /// One poll of an asynchronous extraction into `dst`, copying; wakes the
    /// producer on success, registers `waker` otherwise.
    pub fn copy_item<T: Copy, I: IterComponent>(
        &mut self,
        rb: &mut OneRingBuf<T, I>,
        dst: &mut T,
        waker: &Waker,
    ) -> (r: Option<()>)
        requires
            old(self).inner_spec().wf(old(rb)),
        ensures
            final(self).wf(final(rb)),
            final(rb).wf(),
            final(rb).n() == old(rb).n(),
            if old(rb).avail_cons() >= 1 {
                &&& r == Some(())
                &&& *final(dst) == old(rb).cons_queue()[0]
                &&& old(rb).same_slots(final(rb))
                &&& final(rb).avail_cons() == old(rb).avail_cons() - 1
                &&& final(rb).popped() == old(rb).popped().push(old(rb).cons_queue()[0])
                &&& final(rb).pushed() == old(rb).pushed()
                &&& final(rb).prod_wake() is None
                &&& (old(rb).fifo_inv() ==> final(rb).fifo_inv())
            } else {
                &&& r is None
                &&& *final(dst) == *old(dst)
                &&& old(rb).same_slots(final(rb))
                &&& old(rb).same_hist(final(rb))
                &&& final(rb).cons_wake() is Some
            },
    {
        match self.inner.copy_item(rb, dst) {
            Some(()) => {
                let w = rb.take_prod_waker();
                wake_opt(w);
                Some(())
            },
            None => {
                rb.store_cons_waker(waker);
                None
            },
        }
    }

    /// One poll of an asynchronous extraction into `dst`, cloning; wakes the
    /// producer on success, registers `waker` otherwise.
    pub fn clone_item<T: Clone, I: IterComponent>(
        &mut self,
        rb: &mut OneRingBuf<T, I>,
        dst: &mut T,
        waker: &Waker,
    ) -> (r: Option<()>)
        requires
            old(self).inner_spec().wf(old(rb)),
        ensures
            final(self).wf(final(rb)),
            final(rb).wf(),
            final(rb).n() == old(rb).n(),
            if old(rb).avail_cons() >= 1 {
                &&& r == Some(())
                &&& vstd::pervasive::cloned::<T>(old(rb).cons_queue()[0], *final(dst))
                &&& old(rb).same_slots(final(rb))
                &&& final(rb).avail_cons() == old(rb).avail_cons() - 1
                &&& final(rb).popped() == old(rb).popped().push(old(rb).cons_queue()[0])
                &&& final(rb).pushed() == old(rb).pushed()
                &&& final(rb).prod_wake() is None
                &&& (old(rb).fifo_inv() ==> final(rb).fifo_inv())
            } else {
                &&& r is None
                &&& *final(dst) == *old(dst)
                &&& old(rb).same_slots(final(rb))
                &&& old(rb).same_hist(final(rb))
                &&& final(rb).cons_wake() is Some
            },
    {
        match self.inner.clone_item(rb, dst) {
            Some(()) => {
                let w = rb.take_prod_waker();
                wake_opt(w);
                Some(())
            },
            None => {
                rb.store_cons_waker(waker);
                None
            },
        }
    }

    /// One poll of an asynchronous slice extraction into `dst`, copying;
    /// wakes the producer on success, registers `waker` otherwise.
    pub fn copy_slice<T: Copy, I: IterComponent>(
        &mut self,
        rb: &mut OneRingBuf<T, I>,
        dst: &mut Vec<T>,
        waker: &Waker,
    ) -> (r: Option<()>)
        requires
            old(self).inner_spec().wf(old(rb)),
        ensures
            final(self).wf(final(rb)),
            final(rb).wf(),
            final(rb).n() == old(rb).n(),
            final(dst)@.len() == old(dst)@.len(),
            if old(dst)@.len() <= old(rb).avail_cons() {
                &&& r == Some(())
                &&& final(dst)@ == old(rb).cons_queue().take(old(dst)@.len() as int)
                &&& old(rb).same_slots(final(rb))
                &&& final(rb).avail_cons() == old(rb).avail_cons() - old(dst)@.len()
                &&& final(rb).popped() == old(rb).popped() + old(rb).cons_queue().take(
                    old(dst)@.len() as int,
                )
                &&& final(rb).pushed() == old(rb).pushed()
                &&& final(rb).prod_wake() is None
                &&& (old(rb).fifo_inv() ==> final(rb).fifo_inv())
            } else {
                &&& r is None
                &&& final(dst)@ == old(dst)@
                &&& old(rb).same_slots(final(rb))
                &&& old(rb).same_hist(final(rb))
                &&& final(rb).cons_wake() is Some
            },
    {
        match self.inner.copy_slice(rb, dst) {
            Some(()) => {
                let w = rb.take_prod_waker();
                wake_opt(w);
                Some(())
            },
            None => {
                rb.store_cons_waker(waker);
                None
            },
        }
    }

    /// One poll of an asynchronous slice extraction into `dst`, cloning;
    /// wakes the producer on success, registers `waker` otherwise.
    pub fn clone_slice<T: Clone, I: IterComponent>(
        &mut self,
        rb: &mut OneRingBuf<T, I>,
        dst: &mut Vec<T>,
        waker: &Waker,
    ) -> (r: Option<()>)
        requires
            old(self).inner_spec().wf(old(rb)),
        ensures
            final(self).wf(final(rb)),
            final(rb).wf(),
            final(rb).n() == old(rb).n(),
            final(dst)@.len() == old(dst)@.len(),
            if old(dst)@.len() <= old(rb).avail_cons() {
                &&& r == Some(())
                &&& forall|j: int| 0 <= j < old(dst)@.len()
                    ==> vstd::pervasive::cloned::<T>(
                        old(rb).cons_queue()[j],
                        #[trigger] final(dst)@[j],
                    )
                &&& old(rb).same_slots(final(rb))
                &&& final(rb).avail_cons() == old(rb).avail_cons() - old(dst)@.len()
                &&& final(rb).popped() == old(rb).popped() + old(rb).cons_queue().take(
                    old(dst)@.len() as int,
                )
                &&& final(rb).pushed() == old(rb).pushed()
                &&& final(rb).prod_wake() is None
                &&& (old(rb).fifo_inv() ==> final(rb).fifo_inv())
            } else {
                &&& r is None
                &&& final(dst)@ == old(dst)@
                &&& old(rb).same_slots(final(rb))
                &&& old(rb).same_hist(final(rb))
                &&& final(rb).cons_wake() is Some
            },
    {
        match self.inner.clone_slice(rb, dst) {
            Some(()) => {
                let w = rb.take_prod_waker();
                wake_opt(w);
                Some(())
            },
            None => {
                rb.store_cons_waker(waker);
                None
            },
        }
    }

    /// Advances the consumer and signals the producer's pending wake token.
    pub fn advance<T, I: IterComponent>(&mut self, rb: &mut OneRingBuf<T, I>, count: usize)
        requires
            old(self).inner_spec().wf(old(rb)),
            count as int <= old(rb).avail_cons(),
        ensures
            final(self).wf(final(rb)),
            final(rb).wf(),
            final(rb).n() == old(rb).n(),
            old(rb).same_slots(final(rb)),
            old(rb).same_hist(final(rb)),
            final(rb).cons() == ring_pos(old(rb).cons(), count as int, old(rb).n()),
            final(rb).prod() == old(rb).prod(),
            final(rb).avail_cons() == old(rb).avail_cons() - count,
            final(rb).avail_prod() == old(rb).avail_prod() + count,
            final(rb).prod_wake() is None,
    {
        self.inner.advance(rb, count);
        let w = rb.take_prod_waker();
        wake_opt(w);
    }

    /// As [`ConsIter::available`].
    pub fn available<T, I: IterComponent>(&mut self, rb: &OneRingBuf<T, I>) -> (r: usize)
        requires
            old(self).inner_spec().wf(rb),
        ensures
            final(self).wf(rb),
            r == rb.avail_cons(),
    {
        self.inner.available(rb)
    }
}

impl AsyncWorkIter {
    /// The wrapped synchronous handle.
    pub open(crate) spec fn inner_spec(&self) -> WorkIter {
        self.inner
    }

    /// The handle agrees with the buffer as its synchronous form does.
    pub open spec fn wf<T, I: IterComponent>(&self, rb: &OneRingBuf<T, I>) -> bool {
        self.inner_spec().wf(rb)
    }

    /// Unwraps the synchronous handle.
    pub fn into_sync(self) -> (r: WorkIter)
        ensures
            r == self.inner_spec(),
    {
        self.inner
    }

    /// One poll of an asynchronous read of the oldest element in hand;
    /// registers `waker` when the worker holds nothing.
    pub fn get_mut<T: Copy, I: IterComponent>(
        &mut self,
        rb: &mut OneRingBuf<T, I>,
        waker: &Waker,
    ) -> (r: Option<T>)
        requires
            old(self).inner_spec().wf(old(rb)),
        ensures
            final(self).wf(final(rb)),
            final(rb).wf(),
            old(rb).same_slots(final(rb)),
            old(rb).same_hist(final(rb)),
            final(rb).prod() == old(rb).prod(),
            final(rb).work() == old(rb).work(),
            final(rb).cons() == old(rb).cons(),
            r is Some <==> old(rb).avail_work() >= 1,
            r matches Some(v) ==> v == old(rb).work_queue()[0],
            r is None ==> final(rb).work_wake() is Some,
    {
        match self.inner.get_mut(rb) {
            Some(v) => Some(v),
            None => {
                rb.store_work_waker(waker);
                None
            },
        }
    }

    /// As [`WorkIter::set_item`]: rewrites the oldest element in hand.
    pub fn set_item<T, I: IterComponent>(&mut self, rb: &mut OneRingBuf<T, I>, value: T) -> (r:
        Option<()>)
        requires
            old(self).inner_spec().wf(old(rb)),
        ensures
            final(self).wf(final(rb)),
            final(rb).wf(),
            final(rb).n() == old(rb).n(),
            old(rb).same_hist(final(rb)),
            final(rb).prod() == old(rb).prod(),
            final(rb).work() == old(rb).work(),
            final(rb).cons() == old(rb).cons(),
            if old(rb).avail_work() >= 1 {
                &&& r == Some(())
                &&& final(rb).work_queue() == old(rb).work_queue().update(0, value)
                &&& final(rb).cons_queue() == old(rb).cons_queue()
            } else {
                &&& r is None
                &&& *final(rb) == *old(rb)
            },
    {
        self.inner.set_item(rb, value)
    }

    /// Advances the worker and signals the consumer's pending wake token.
    pub fn advance<T, I: MutIterComp>(&mut self, rb: &mut OneRingBuf<T, I>, count: usize)
        requires
            old(self).inner_spec().wf(old(rb)),
            count as int <= old(rb).avail_work(),
        ensures
            final(self).wf(final(rb)),
            final(rb).wf(),
            final(rb).n() == old(rb).n(),
            old(rb).same_slots(final(rb)),
            old(rb).same_hist(final(rb)),
            final(rb).work() == ring_pos(old(rb).work(), count as int, old(rb).n()),
            final(rb).avail_work() == old(rb).avail_work() - count,
            final(rb).avail_cons() == old(rb).avail_cons() + count,
            final(rb).cons_wake() is None,
    {
        self.inner.advance(rb, count);
        let w = rb.take_cons_waker();
        wake_opt(w);
    }

    /// As [`WorkIter::reset_index`].
    pub fn reset_index<T, I: MutIterComp>(&mut self, rb: &mut OneRingBuf<T, I>)
        requires
            old(self).inner_spec().wf(old(rb)),
        ensures
            final(self).wf(final(rb)),
            final(rb).wf(),
            final(rb).work() == old(rb).prod(),
            final(rb).avail_work() == 0,
            final(rb).avail_cons() == old(rb).avail_cons() + old(rb).avail_work(),
    {
        self.inner.reset_index(rb)
    }

    /// As [`WorkIter::available`].
    pub fn available<T, I: IterComponent>(&mut self, rb: &OneRingBuf<T, I>) -> (r: usize)
        requires
            old(self).inner_spec().wf(rb),
        ensures
            final(self).wf(rb),
            r == rb.avail_work(),
    {
        self.inner.available(rb)
    }

    /// Detaches the worker, as [`WorkIter::detach`].
    pub fn detach<T, I: IterComponent>(self, rb: &OneRingBuf<T, I>) -> (r: AsyncDetached)
        requires
            self.inner_spec().wf(rb),
        ensures
            r.inner_spec().wf(rb),
            r.inner_spec().index_spec() == self.inner_spec().index_spec(),
    {
        AsyncDetached { inner: self.inner.detach(rb) }
    }
}

impl AsyncDetached {
    /// The wrapped synchronous handle.
    pub open(crate) spec fn inner_spec(&self) -> Detached {
        self.inner
    }

    /// The handle agrees with the buffer as its synchronous form does.
    pub open spec fn wf<T, I: IterComponent>(&self, rb: &OneRingBuf<T, I>) -> bool {
        self.inner_spec().wf(rb)
    }

    /// As [`Detached::advance`]: the move stays local, so nothing is woken.
    pub fn advance<T, I: IterComponent>(&mut self, rb: &OneRingBuf<T, I>, count: usize)
        requires
            old(self).inner_spec().wf(rb),
            count as int <= rb.n(),
        ensures
            final(self).wf(rb),
            final(self).inner_spec().index_spec() == ring_pos(
                old(self).inner_spec().index_spec(),
                count as int,
                rb.n(),
            ),
    {
        self.inner.advance(rb, count);
    }

    /// As [`Detached::go_back`].
    pub fn go_back<T, I: IterComponent>(&mut self, rb: &OneRingBuf<T, I>, count: usize)
        requires
            old(self).inner_spec().wf(rb),
            old(self).inner_spec().cached_spec() + count <= rb.n(),
        ensures
            final(self).wf(rb),
            final(self).inner_spec().index_spec() == crate::iterators::detached::ring_back(
                old(self).inner_spec().index_spec(),
                count as int,
                rb.n(),
            ),
    {
        self.inner.go_back(rb, count);
    }

    /// As [`Detached::sync_index`]: publishes the local index.
    pub fn sync_index<T, I: MutIterComp>(&self, rb: &mut OneRingBuf<T, I>)
        requires
            self.inner_spec().wf(old(rb)),
            crate::ring_dist(old(rb).cons(), self.inner_spec().index_spec(), old(rb).n())
                <= crate::ring_dist(old(rb).cons(), old(rb).prod(), old(rb).n()),
        ensures
            final(rb).wf(),
            final(rb).work() == self.inner_spec().index_spec(),
            old(rb).same_slots(final(rb)),
            old(rb).same_hist(final(rb)),
            final(rb).prod() == old(rb).prod(),
            final(rb).cons() == old(rb).cons(),
    {
        self.inner.sync_index(rb);
    }

    /// As [`Detached::attach`]: publishes the local index and yields back
    /// the asynchronous worker handle.
    pub fn attach<T, I: MutIterComp>(self, rb: &mut OneRingBuf<T, I>) -> (r: AsyncWorkIter)
        requires
            self.inner_spec().wf(old(rb)),
            crate::ring_dist(old(rb).cons(), self.inner_spec().index_spec(), old(rb).n())
                <= crate::ring_dist(old(rb).cons(), old(rb).prod(), old(rb).n()),
        ensures
            final(rb).wf(),
            r.wf(final(rb)),
            final(rb).work() == self.inner_spec().index_spec(),
            old(rb).same_slots(final(rb)),
            old(rb).same_hist(final(rb)),
            final(rb).prod() == old(rb).prod(),
            final(rb).cons() == old(rb).cons(),
    {
        AsyncWorkIter { inner: self.inner.attach(rb) }
    }

    /// As [`Detached::get_mut`]: a copy of the element at the local index,
    /// yielded exactly when something is known to be in hand.
    pub fn get_mut<T: Copy, I: IterComponent>(&mut self, rb: &OneRingBuf<T, I>) -> (r: Option<
        T>)
        requires
            old(self).inner_spec().wf(rb),
        ensures
            final(self).wf(rb),
            final(self).inner_spec().index_spec() == old(self).inner_spec().index_spec(),
            r is Some <==> (old(self).inner_spec().cached_spec() >= 1
                || final(self).inner_spec().avail_local(rb) >= 1),
            r matches Some(v) ==> v == rb.items()[final(self).inner_spec().index_spec()],
    {
        self.inner.get_mut(rb)
    }

    /// As [`Detached::set_item`]: writes `value` over the element at the
    /// local index exactly when something is known to be in hand; `None` and
    /// no change otherwise.
    pub fn set_item<T, I: IterComponent>(&mut self, rb: &mut OneRingBuf<T, I>, value: T) -> (r:
        Option<()>)
        requires
            old(self).inner_spec().wf(old(rb)),
        ensures
            final(self).wf(final(rb)),
            final(rb).wf(),
            final(rb).n() == old(rb).n(),
            final(self).inner_spec().index_spec() == old(self).inner_spec().index_spec(),
            final(rb).alive() == old(rb).alive(),
            old(rb).same_wakers(final(rb)),
            old(rb).same_hist(final(rb)),
            final(rb).prod() == old(rb).prod(),
            final(rb).work() == old(rb).work(),
            final(rb).cons() == old(rb).cons(),
            if old(self).inner_spec().cached_spec() >= 1
                || old(self).inner_spec().avail_local(old(rb)) >= 1 {
                &&& r == Some(())
                &&& final(rb).items() == old(rb).items().update(
                    old(self).inner_spec().index_spec(),
                    value,
                )
                &&& final(rb).init_map() == old(rb).init_map().update(
                    old(self).inner_spec().index_spec(),
                    true,
                )
            } else {
                &&& r is None
                &&& *final(rb) == *old(rb)
            },
    {
        self.inner.set_item(rb, value)
    }
}

} // verus!
