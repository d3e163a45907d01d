//! The ring buffer itself: slot storage plus the index state that the three
//! participants advance through it, and the wake slots of the asynchronous
//! adapter.

use vstd::prelude::*;

pub mod iters_components;
pub mod storage_components;
pub mod vmem_helper;
pub mod wrappers;

use crate::iterators::cons_iter::ConsIter;
use crate::iterators::prod_iter::ProdIter;
use crate::iterators::work_iter::WorkIter;
use crate::ring_buffer::iters_components::IterComponent;
use crate::ring_buffer::iters_components::LocalComp;
use crate::ring_buffer::iters_components::LocalCompMut;
use crate::ring_buffer::iters_components::MutIterComp;
use crate::ring_buffer::iters_components::NonMutIterComp;
use crate::ring_buffer::storage_components::HeapStorage;
use crate::ring_dist;
use crate::ring_pos;
use crate::ring_seg;
use core::task::Waker;

verus! {

/// The ring buffer: `N` slots, the published indices of its participants,
/// and one wake slot per participant for the asynchronous adapter.
///
/// One slot is always kept free, so at most `N - 1` elements are live at
/// once; that gap is what tells a full ring from an empty one.
///
/// The `hist_in` / `hist_out` fields are ghost: they record the sequence of
/// elements handed in by the producer and handed out by the consumer, so the
/// first-in first-out behaviour can be stated and proved.
pub struct OneRingBuf<T, I: IterComponent> {
    pub(crate) storage: HeapStorage<T>,
    pub(crate) iters: I,
    pub(crate) prod_waker: Option<Waker>,
    pub(crate) work_waker: Option<Waker>,
    pub(crate) cons_waker: Option<Waker>,
    pub(crate) hist_in: Ghost<Seq<T>>,
    pub(crate) hist_out: Ghost<Seq<T>>,
}

/// Non-mutable heap ring buffer for a single execution context.
pub type LocalHeapRB<T> = OneRingBuf<T, LocalComp>;

/// Mutable heap ring buffer for a single execution context.
pub type LocalHeapRBMut<T> = OneRingBuf<T, LocalCompMut>;

impl<T, I: IterComponent> OneRingBuf<T, I> {
    /// Number of slots, as a mathematical integer.
    pub open(crate) spec fn n(&self) -> int {
        self.storage@.len() as int
    }

    /// The value held by each slot.
    pub open(crate) spec fn items(&self) -> Seq<T> {
        self.storage@
    }

    /// Which slots hold an initialised element.
    pub open(crate) spec fn init_map(&self) -> Seq<bool> {
        self.storage.init_map()
    }

    /// The producer's published index.
    pub open(crate) spec fn prod(&self) -> int {
        self.iters.prod() as int
    }

    /// The published index of the consumer's successor: the worker where one
    /// exists, the producer otherwise.
    pub open(crate) spec fn work(&self) -> int {
        self.iters.work() as int
    }

    /// The consumer's published index.
    pub open(crate) spec fn cons(&self) -> int {
        self.iters.cons() as int
    }

    /// How many handles are still alive.
    pub open(crate) spec fn alive(&self) -> u8 {
        self.iters.alive()
    }

    /// The producer's pending wake token.
    pub open(crate) spec fn prod_wake(&self) -> Option<Waker> {
        self.prod_waker
    }

    /// The worker's pending wake token.
    pub open(crate) spec fn work_wake(&self) -> Option<Waker> {
        self.work_waker
    }

    /// The consumer's pending wake token.
    pub open(crate) spec fn cons_wake(&self) -> Option<Waker> {
        self.cons_waker
    }

    /// Every element the producer has handed in, oldest first.
    pub open(crate) spec fn pushed(&self) -> Seq<T> {
        self.hist_in@
    }

    /// Every element the consumer has handed out, oldest first.
    pub open(crate) spec fn popped(&self) -> Seq<T> {
        self.hist_out@
    }

    /// The buffer's invariant: the counters stay inside the ring and, walking
    /// forward from the consumer, one meets the worker, then the producer,
    /// before coming back around — with the gap slot never crossed.
    pub open spec fn wf(&self) -> bool {
        &&& self.n() >= 1
        &&& self.items().len() == self.n()
        &&& self.init_map().len() == self.n()
        &&& 0 <= self.prod() < self.n()
        &&& 0 <= self.work() < self.n()
        &&& 0 <= self.cons() < self.n()
        &&& ring_dist(self.cons(), self.work(), self.n())
            + ring_dist(self.work(), self.prod(), self.n()) <= self.n() - 1
        &&& !I::mutable() ==> self.work() == self.prod()
    }

    /// Slots the consumer may take: from its index up to its successor's.
    pub open spec fn avail_cons(&self) -> int {
        ring_dist(self.cons(), self.work(), self.n())
    }

    /// Slots the worker may mutate: from its index up to the producer's.
    pub open spec fn avail_work(&self) -> int {
        ring_dist(self.work(), self.prod(), self.n())
    }

    /// Slots the producer may fill: all but the live ones and the gap slot.
    pub open spec fn avail_prod(&self) -> int {
        self.n() - 1 - ring_dist(self.cons(), self.prod(), self.n())
    }

    /// The elements the consumer would take, oldest first.
    pub open spec fn cons_queue(&self) -> Seq<T> {
        ring_seg(self.items(), self.cons(), self.avail_cons())
    }

    /// The elements the worker has in hand, oldest first.
    pub open spec fn work_queue(&self) -> Seq<T> {
        ring_seg(self.items(), self.work(), self.avail_work())
    }

    /// First-in first-out discipline for a buffer without a worker, driven by
    /// pushes and pops alone: what was pushed is what was popped followed by
    /// what is still live, and every live slot is initialised.
    pub open spec fn fifo_inv(&self) -> bool {
        &&& self.wf()
        &&& !I::mutable()
        &&& self.pushed() == self.popped() + self.cons_queue()
        &&& forall|i: int| 0 <= i < self.avail_cons()
            ==> self.init_map()[ring_pos(self.cons(), i, self.n())]
    }

    /// The two buffers hold the same slots, bit for bit.
    pub open spec fn same_slots(&self, other: &Self) -> bool {
        &&& other.items() == self.items()
        &&& other.init_map() == self.init_map()
    }

    /// The two buffers hold the same pending wake tokens.
    pub open spec fn same_wakers(&self, other: &Self) -> bool {
        &&& other.prod_wake() == self.prod_wake()
        &&& other.work_wake() == self.work_wake()
        &&& other.cons_wake() == self.cons_wake()
    }

    /// The two buffers record the same push and pop history.
    pub open spec fn same_hist(&self, other: &Self) -> bool {
        &&& other.pushed() == self.pushed()
        &&& other.popped() == self.popped()
    }

    /// Builds a ring buffer whose slots are the elements of `value`, all
    /// initialised, with every index at slot zero.
    pub fn from(value: Vec<T>) -> (r: Self)
        requires
            value@.len() >= 1,
        ensures
            r.wf(),
            r.n() == value@.len(),
            r.items() == value@,
            forall|i: int| 0 <= i < r.n() ==> r.init_map()[i],
            r.prod() == 0,
            r.work() == 0,
            r.cons() == 0,
            r.alive() == if I::mutable() { 3u8 } else { 2u8 },
            r.prod_wake() is None,
            r.work_wake() is None,
            r.cons_wake() is None,
            r.pushed() == Seq::<T>::empty(),
            r.popped() == Seq::<T>::empty(),
            !I::mutable() ==> r.fifo_inv(),
    {
        let r = OneRingBuf {
            storage: HeapStorage::from(value),
            iters: I::component_default(),
            prod_waker: None,
            work_waker: None,
            cons_waker: None,
            hist_in: Ghost(Seq::empty()),
            hist_out: Ghost(Seq::empty()),
        };
        proof {
            assert(r.cons_queue() =~= Seq::<T>::empty());
        }
        r
    }

    /// Builds a ring buffer whose slots are the elements of an owned
    /// fixed-size array, all initialised, with every index at slot zero.
    pub fn from_array<const N: usize>(value: [T; N]) -> (r: Self)
        requires
            N >= 1,
        ensures
            r.wf(),
            r.n() == N,
            r.items() == value@,
            forall|i: int| 0 <= i < r.n() ==> r.init_map()[i],
            r.prod() == 0,
            r.work() == 0,
            r.cons() == 0,
            r.alive() == if I::mutable() { 3u8 } else { 2u8 },
            r.pushed() == Seq::<T>::empty(),
            r.popped() == Seq::<T>::empty(),
            !I::mutable() ==> r.fifo_inv(),
    {
        Self::from(crate::ring_buffer::storage_components::array_to_vec(value))
    }

    /// Builds a ring buffer of `capacity` slots initialised to the element
    /// type's default value.
    pub fn new_default(capacity: usize) -> (r: Self)
        where T: Default + Clone
        requires
            capacity >= 1,
        ensures
            r.wf(),
            r.n() == capacity,
            forall|i: int| 0 <= i < r.n() ==> r.init_map()[i],
            r.prod() == 0,
            r.work() == 0,
            r.cons() == 0,
            r.alive() == if I::mutable() { 3u8 } else { 2u8 },
            r.prod_wake() is None,
            r.work_wake() is None,
            r.cons_wake() is None,
            r.pushed() == Seq::<T>::empty(),
            r.popped() == Seq::<T>::empty(),
            !I::mutable() ==> r.fifo_inv(),
    {
        let mut value: Vec<T> = Vec::new();
        let mut j: usize = 0;
        while j < capacity
            invariant
                j <= capacity,
                value@.len() == j,
            decreases capacity - j,
        {
            value.push(T::default());
            j = j + 1;
        }
        Self::from(value)
    }

    /// Builds a ring buffer of `capacity` slots that hold placeholder default
    /// values and count as uninitialised: the stand-in for a zeroed
    /// allocation.  Only the `*_init` producer methods should fill it.
    pub fn new_zeroed(capacity: usize) -> (r: Self)
        where T: Default + Clone
        requires
            capacity >= 1,
        ensures
            r.wf(),
            r.n() == capacity,
            forall|i: int| 0 <= i < r.n() ==> !r.init_map()[i],
            r.prod() == 0,
            r.work() == 0,
            r.cons() == 0,
            r.alive() == if I::mutable() { 3u8 } else { 2u8 },
            r.prod_wake() is None,
            r.work_wake() is None,
            r.cons_wake() is None,
            r.pushed() == Seq::<T>::empty(),
            r.popped() == Seq::<T>::empty(),
    {
        OneRingBuf {
            storage: HeapStorage::new_uninit(T::default(), capacity),
            iters: I::component_default(),
            prod_waker: None,
            work_waker: None,
            cons_waker: None,
            hist_in: Ghost(Seq::empty()),
            hist_out: Ghost(Seq::empty()),
        }
    }

    /// Number of slots.
    pub fn len(&self) -> (r: usize)
        ensures
            r == self.n(),
    {
        self.storage.len()
    }

    /// The producer's published index.
    pub fn prod_index(&self) -> (r: usize)
        ensures
            r == self.prod(),
    {
        self.iters.prod_index()
    }

    /// The published index of the consumer's successor.
    pub fn work_index(&self) -> (r: usize)
        ensures
            r == self.work(),
    {
        self.iters.work_index()
    }

    /// The consumer's published index.
    pub fn cons_index(&self) -> (r: usize)
        ensures
            r == self.cons(),
    {
        self.iters.cons_index()
    }

    /// How many handles are still alive.
    pub fn alive_iters(&self) -> (r: u8)
        ensures
            r == self.alive(),
    {
        self.iters.alive_iters()
    }

    /// Publishes a new producer index.  On a buffer without a worker this
    /// also moves the reported worker index, which mirrors the producer's.
    pub(crate) fn publish_prod(&mut self, index: usize)
        ensures
            final(self).prod() == index as int,
            final(self).work() == if I::mutable() {
                old(self).work()
            } else {
                index as int
            },
            final(self).cons() == old(self).cons(),
            final(self).alive() == old(self).alive(),
            final(self).n() == old(self).n(),
            old(self).same_slots(final(self)),
            old(self).same_wakers(final(self)),
            old(self).same_hist(final(self)),
    {
        self.iters.set_prod_index(index);
    }

    /// Publishes a new worker index; nothing changes on a buffer without a
    /// worker.
    pub(crate) fn publish_work(&mut self, index: usize)
        ensures
            final(self).prod() == old(self).prod(),
            final(self).work() == if I::mutable() {
                index as int
            } else {
                old(self).work()
            },
            final(self).cons() == old(self).cons(),
            final(self).alive() == old(self).alive(),
            final(self).n() == old(self).n(),
            old(self).same_slots(final(self)),
            old(self).same_wakers(final(self)),
            old(self).same_hist(final(self)),
    {
        self.iters.set_work_index(index);
    }

    /// Publishes a new consumer index.
    pub(crate) fn publish_cons(&mut self, index: usize)
        ensures
            final(self).prod() == old(self).prod(),
            final(self).work() == old(self).work(),
            final(self).cons() == index as int,
            final(self).alive() == old(self).alive(),
            final(self).n() == old(self).n(),
            old(self).same_slots(final(self)),
            old(self).same_wakers(final(self)),
            old(self).same_hist(final(self)),
    {
        self.iters.set_cons_index(index);
    }

    /// Writes `value` into slot `index` and marks it initialised.
    pub(crate) fn set_slot(&mut self, index: usize, value: T)
        requires
            old(self).wf(),
            index < old(self).n(),
        ensures
            final(self).items() == old(self).items().update(index as int, value),
            final(self).init_map() == old(self).init_map().update(index as int, true),
            final(self).n() == old(self).n(),
            final(self).prod() == old(self).prod(),
            final(self).work() == old(self).work(),
            final(self).cons() == old(self).cons(),
            final(self).alive() == old(self).alive(),
            old(self).same_wakers(final(self)),
            old(self).same_hist(final(self)),
    {
        self.storage.set(index, value);
    }

    /// Marks slot `index` as no longer holding an initialised element.
    pub(crate) fn clear_slot(&mut self, index: usize)
        requires
            old(self).wf(),
            index < old(self).n(),
        ensures
            final(self).items() == old(self).items(),
            final(self).init_map() == old(self).init_map().update(index as int, false),
            final(self).n() == old(self).n(),
            final(self).prod() == old(self).prod(),
            final(self).work() == old(self).work(),
            final(self).cons() == old(self).cons(),
            final(self).alive() == old(self).alive(),
            old(self).same_wakers(final(self)),
            old(self).same_hist(final(self)),
    {
        self.storage.clear_init(index);
    }

    /// A reference to the value in slot `index`.
    pub(crate) fn read_slot(&self, index: usize) -> (r: &T)
        requires
            self.wf(),
            index < self.n(),
        ensures
            *r == self.items()[index as int],
    {
        self.storage.index(index)
    }

    /// Whether slot `index` holds an initialised element.
    pub(crate) fn slot_is_init(&self, index: usize) -> (r: bool)
        requires
            self.wf(),
            index < self.n(),
        ensures
            r == self.init_map()[index as int],
    {
        self.storage.is_init(index)
    }

    /// The `count` slots starting at `index`, wrapping at the end of the
    /// ring, as a head slice and a (possibly empty) tail slice.
    pub(crate) fn chunk<'a>(&'a self, index: usize, count: usize) -> (r: (&'a [T], &'a [T]))
        requires
            self.wf(),
            index < self.n(),
            count <= self.n(),
        ensures
            r.0@ + r.1@ == ring_seg(self.items(), index as int, count as int),
            r.0@.len() + r.1@.len() == count,
            index + count > self.n() ==> r.0@.len() == self.n() - index,
            index + count <= self.n() ==> r.1@.len() == 0,
    {
        self.storage.next_chunk(index, count)
    }

    /// Copies of the `count` slots starting at `index`, in ring order.
    pub(crate) fn read_ring_at(&self, index: usize, count: usize) -> (r: Vec<T>)
        where T: Copy
        requires
            self.wf(),
            index < self.n(),
            count <= self.n(),
        ensures
            r@ == ring_seg(self.items(), index as int, count as int),
    {
        self.storage.read_ring(index, count)
    }

    /// Clones of the `count` slots starting at `index`, in ring order.
    pub(crate) fn read_ring_clone_at(&self, index: usize, count: usize) -> (r: Vec<T>)
        where T: Clone
        requires
            self.wf(),
            index < self.n(),
            count <= self.n(),
        ensures
            r@.len() == count,
            forall|j: int| 0 <= j < count
                ==> vstd::pervasive::cloned::<T>(
                    self.items()[ring_pos(index as int, j, self.n())],
                    #[trigger] r@[j],
                ),
    {
        self.storage.read_ring_clone(index, count)
    }

    /// Copies `src` into the slots starting at `index`, wrapping at the end
    /// of the ring, and marks them initialised.
    pub(crate) fn write_ring_at(&mut self, index: usize, src: &[T])
        where T: Copy
        requires
            old(self).wf(),
            index < old(self).n(),
            src@.len() <= old(self).n(),
        ensures
            final(self).n() == old(self).n(),
            forall|p: int| #![trigger final(self).items()[p]] 0 <= p < final(self).n() ==> {
                let d = ring_dist(index as int, p, final(self).n());
                if d < src@.len() {
                    final(self).items()[p] == src@[d] && final(self).init_map()[p]
                } else {
                    final(self).items()[p] == old(self).items()[p]
                        && final(self).init_map()[p] == old(self).init_map()[p]
                }
            },
            final(self).init_map().len() == old(self).init_map().len(),
            final(self).prod() == old(self).prod(),
            final(self).work() == old(self).work(),
            final(self).cons() == old(self).cons(),
            final(self).alive() == old(self).alive(),
            old(self).same_wakers(final(self)),
            old(self).same_hist(final(self)),
    {
        self.storage.write_ring(index, src);
    }

    /// Clones `src` into the slots starting at `index`, wrapping at the end
    /// of the ring, and marks them initialised.
    pub(crate) fn clone_ring_at(&mut self, index: usize, src: &[T])
        where T: Clone
        requires
            old(self).wf(),
            index < old(self).n(),
            src@.len() <= old(self).n(),
        ensures
            final(self).n() == old(self).n(),
            forall|p: int| #![trigger final(self).items()[p]] 0 <= p < final(self).n() ==> {
                let d = ring_dist(index as int, p, final(self).n());
                if d < src@.len() {
                    vstd::pervasive::cloned::<T>(src@[d], final(self).items()[p])
                        && final(self).init_map()[p]
                } else {
                    final(self).items()[p] == old(self).items()[p]
                        && final(self).init_map()[p] == old(self).init_map()[p]
                }
            },
            final(self).init_map().len() == old(self).init_map().len(),
            final(self).prod() == old(self).prod(),
            final(self).work() == old(self).work(),
            final(self).cons() == old(self).cons(),
            final(self).alive() == old(self).alive(),
            old(self).same_wakers(final(self)),
            old(self).same_hist(final(self)),
    {
        self.storage.clone_ring(index, src);
    }

    /// Appends `value` to the record of what the producer handed in.
    pub(crate) fn record_push(&mut self, value: Ghost<T>)
        ensures
            final(self).pushed() == old(self).pushed().push(value@),
            final(self).popped() == old(self).popped(),
            final(self).n() == old(self).n(),
            final(self).prod() == old(self).prod(),
            final(self).work() == old(self).work(),
            final(self).cons() == old(self).cons(),
            final(self).alive() == old(self).alive(),
            old(self).same_slots(final(self)),
            old(self).same_wakers(final(self)),
    {
        self.hist_in = Ghost(self.hist_in@.push(value@));
    }

    /// Appends `values` to the record of what the producer handed in.
    pub(crate) fn record_push_seq(&mut self, values: Ghost<Seq<T>>)
        ensures
            final(self).pushed() == old(self).pushed() + values@,
            final(self).popped() == old(self).popped(),
            final(self).n() == old(self).n(),
            final(self).prod() == old(self).prod(),
            final(self).work() == old(self).work(),
            final(self).cons() == old(self).cons(),
            final(self).alive() == old(self).alive(),
            old(self).same_slots(final(self)),
            old(self).same_wakers(final(self)),
    {
        self.hist_in = Ghost(self.hist_in@ + values@);
    }

    /// Appends `value` to the record of what the consumer handed out.
    pub(crate) fn record_pop(&mut self, value: Ghost<T>)
        ensures
            final(self).popped() == old(self).popped().push(value@),
            final(self).pushed() == old(self).pushed(),
            final(self).n() == old(self).n(),
            final(self).prod() == old(self).prod(),
            final(self).work() == old(self).work(),
            final(self).cons() == old(self).cons(),
            final(self).alive() == old(self).alive(),
            old(self).same_slots(final(self)),
            old(self).same_wakers(final(self)),
    {
        self.hist_out = Ghost(self.hist_out@.push(value@));
    }

    /// Appends `values` to the record of what the consumer handed out.
    pub(crate) fn record_pop_seq(&mut self, values: Ghost<Seq<T>>)
        ensures
            final(self).popped() == old(self).popped() + values@,
            final(self).pushed() == old(self).pushed(),
            final(self).n() == old(self).n(),
            final(self).prod() == old(self).prod(),
            final(self).work() == old(self).work(),
            final(self).cons() == old(self).cons(),
            final(self).alive() == old(self).alive(),
            old(self).same_slots(final(self)),
            old(self).same_wakers(final(self)),
    {
        self.hist_out = Ghost(self.hist_out@ + values@);
    }

    /// Stores a duplicate of `waker` as the producer's pending wake token.
    pub(crate) fn store_prod_waker(&mut self, waker: &Waker)
        ensures
            final(self).prod_wake() is Some,
            final(self).work_wake() == old(self).work_wake(),
            final(self).cons_wake() == old(self).cons_wake(),
            old(self).same_slots(final(self)),
            old(self).same_hist(final(self)),
            final(self).n() == old(self).n(),
            final(self).prod() == old(self).prod(),
            final(self).work() == old(self).work(),
            final(self).cons() == old(self).cons(),
            final(self).alive() == old(self).alive(),
    {
        self.prod_waker = Some(wrappers::clone_waker(waker));
    }

    /// Stores a duplicate of `waker` as the worker's pending wake token.
    pub(crate) fn store_work_waker(&mut self, waker: &Waker)
        ensures
            final(self).work_wake() is Some,
            final(self).prod_wake() == old(self).prod_wake(),
            final(self).cons_wake() == old(self).cons_wake(),
            old(self).same_slots(final(self)),
            old(self).same_hist(final(self)),
            final(self).n() == old(self).n(),
            final(self).prod() == old(self).prod(),
            final(self).work() == old(self).work(),
            final(self).cons() == old(self).cons(),
            final(self).alive() == old(self).alive(),
    {
        self.work_waker = Some(wrappers::clone_waker(waker));
    }

    /// Stores a duplicate of `waker` as the consumer's pending wake token.
    pub(crate) fn store_cons_waker(&mut self, waker: &Waker)
        ensures
            final(self).cons_wake() is Some,
            final(self).prod_wake() == old(self).prod_wake(),
            final(self).work_wake() == old(self).work_wake(),
            old(self).same_slots(final(self)),
            old(self).same_hist(final(self)),
            final(self).n() == old(self).n(),
            final(self).prod() == old(self).prod(),
            final(self).work() == old(self).work(),
            final(self).cons() == old(self).cons(),
            final(self).alive() == old(self).alive(),
    {
        self.cons_waker = Some(wrappers::clone_waker(waker));
    }

    /// Takes the producer's pending wake token, leaving the slot empty.
    pub(crate) fn take_prod_waker(&mut self) -> (r: Option<Waker>)
        ensures
            r == old(self).prod_wake(),
            final(self).prod_wake() is None,
            final(self).work_wake() == old(self).work_wake(),
            final(self).cons_wake() == old(self).cons_wake(),
            old(self).same_slots(final(self)),
            old(self).same_hist(final(self)),
            final(self).n() == old(self).n(),
            final(self).prod() == old(self).prod(),
            final(self).work() == old(self).work(),
            final(self).cons() == old(self).cons(),
            final(self).alive() == old(self).alive(),
    {
        let mut slot: Option<Waker> = None;
        core::mem::swap(&mut self.prod_waker, &mut slot);
        slot
    }

    /// Takes the worker's pending wake token, leaving the slot empty.
    pub(crate) fn take_work_waker(&mut self) -> (r: Option<Waker>)
        ensures
            r == old(self).work_wake(),
            final(self).work_wake() is None,
            final(self).prod_wake() == old(self).prod_wake(),
            final(self).cons_wake() == old(self).cons_wake(),
            old(self).same_slots(final(self)),
            old(self).same_hist(final(self)),
            final(self).n() == old(self).n(),
            final(self).prod() == old(self).prod(),
            final(self).work() == old(self).work(),
            final(self).cons() == old(self).cons(),
            final(self).alive() == old(self).alive(),
    {
        let mut slot: Option<Waker> = None;
        core::mem::swap(&mut self.work_waker, &mut slot);
        slot
    }

    /// Takes the consumer's pending wake token, leaving the slot empty.
    pub(crate) fn take_cons_waker(&mut self) -> (r: Option<Waker>)
        ensures
            r == old(self).cons_wake(),
            final(self).cons_wake() is None,
            final(self).prod_wake() == old(self).prod_wake(),
            final(self).work_wake() == old(self).work_wake(),
            old(self).same_slots(final(self)),
            old(self).same_hist(final(self)),
            final(self).n() == old(self).n(),
            final(self).prod() == old(self).prod(),
            final(self).work() == old(self).work(),
            final(self).cons() == old(self).cons(),
            final(self).alive() == old(self).alive(),
    {
        let mut slot: Option<Waker> = None;
        core::mem::swap(&mut self.cons_waker, &mut slot);
        slot
    }

    /// Records that one handle was dropped; returns the count before the
    /// drop.  When it returns `1`, the caller held the last handle and the
    /// buffer may be released.
    pub fn drop_iter(&mut self) -> (r: u8)
        requires
            old(self).alive() >= 1,
        ensures
            r == old(self).alive(),
            final(self).alive() == old(self).alive() - 1,
            final(self).wf() == old(self).wf(),
            old(self).same_slots(final(self)),
            old(self).same_wakers(final(self)),
            old(self).same_hist(final(self)),
            final(self).prod() == old(self).prod(),
            final(self).work() == old(self).work(),
            final(self).cons() == old(self).cons(),
    {
        self.iters.drop_iter()
    }
}

impl<T, I: NonMutIterComp> OneRingBuf<T, I> {
    /// Splits a non-mutable buffer into its two handles: a producer and a
    /// consumer, both standing at their published indices with an empty
    /// availability cache.
    pub fn split(&self) -> (r: (ProdIter, ConsIter))
        requires
            self.wf(),
        ensures
            r.0.wf(self),
            r.1.wf(self),
            r.0.index_spec() == self.prod(),
            r.1.index_spec() == self.cons(),
            r.0.cached_spec() == 0,
            r.1.cached_spec() == 0,
    {
        (ProdIter::new(self), ConsIter::new(self))
    }
}

impl<T, I: MutIterComp> OneRingBuf<T, I> {
    /// Splits a mutable buffer into its three handles: a producer, a worker
    /// and a consumer, each standing at its published index with an empty
    /// availability cache.
    pub fn split_mut(&self) -> (r: (ProdIter, WorkIter, ConsIter))
        requires
            self.wf(),
        ensures
            r.0.wf(self),
            r.1.wf(self),
            r.2.wf(self),
            r.0.index_spec() == self.prod(),
            r.1.index_spec() == self.work(),
            r.2.index_spec() == self.cons(),
            r.0.cached_spec() == 0,
            r.1.cached_spec() == 0,
            r.2.cached_spec() == 0,
    {
        (ProdIter::new(self), WorkIter::new(self), ConsIter::new(self))
    }
}

} // verus!
