//! Slot storage for the ring: a fixed-length sequence of cells together with
//! a record of which cells currently hold an initialised element.
//!
//! Every cell always contains a value of the element type; the parallel
//! `init` flags model the slot state machine (uninitialised / initialised /
//! moved-out).  A flag that is `false` marks a slot whose value is a stale
//! placeholder that the protocol must not hand to the consumer.

use vstd::prelude::*;
use vstd::pervasive::VecAdditionalExecFns;
use vstd::pervasive::cloned;
use vstd::slice::slice_subrange;

use crate::ring_dist;
use crate::ring_pos;
use crate::ring_seg;

verus! {

/// Turns an owned fixed-size array into a vector of its elements, in order.
///
/// Relies on `alloc::vec::Vec::from`, which moves the array's elements into a
/// new vector without reordering them.
#[verifier::external_body]
pub(crate) fn array_to_vec<T, const N: usize>(value: [T; N]) -> (r: Vec<T>)
    ensures
        r@ == value@,
{
    Vec::from(value)
}

/// Heap-allocated slot storage: `items[i]` is the value in slot `i`, and
/// `init[i]` records whether that slot holds an initialised element.
pub struct HeapStorage<T> {
    items: Vec<T>,
    init: Vec<bool>,
}

impl<T> View for HeapStorage<T> {
    type V = Seq<T>;

    closed spec fn view(&self) -> Seq<T> {
        self.items@
    }
}

impl<T> HeapStorage<T> {
    /// Which slots hold an initialised element.
    pub closed spec fn init_map(&self) -> Seq<bool> {
        self.init@
    }

    /// The `init` record covers exactly the slots.
    pub open spec fn wf(&self) -> bool {
        self.init_map().len() == self@.len()
    }

    /// Builds storage from a vector of already-initialised elements.
    pub fn from(value: Vec<T>) -> (r: Self)
        ensures
            r.wf(),
            r@ == value@,
            forall|i: int| 0 <= i < r@.len() ==> r.init_map()[i],
    {
        let ghost len = value@.len();
        let mut init: Vec<bool> = Vec::new();
        let mut j: usize = 0;
        while j < value.len()
            invariant
                j <= len,
                value@.len() == len,
                init@.len() == j,
                forall|i: int| 0 <= i < j ==> init@[i],
            decreases len - j,
        {
            init.push(true);
            j = j + 1;
        }
        HeapStorage { items: value, init }
    }

    /// Builds storage whose slots all hold `fill` but count as uninitialised.
    pub fn new_uninit(fill: T, capacity: usize) -> (r: Self)
        where T: Clone
        ensures
            r.wf(),
            r@.len() == capacity,
            forall|i: int| 0 <= i < capacity ==> !r.init_map()[i],
    {
        let mut items: Vec<T> = Vec::new();
        let mut init: Vec<bool> = Vec::new();
        let mut j: usize = 0;
        while j < capacity
            invariant
                j <= capacity,
                items@.len() == j,
                init@.len() == j,
                forall|i: int| 0 <= i < j ==> !init@[i],
            decreases capacity - j,
        {
            items.push(fill.clone());
            init.push(false);
            j = j + 1;
        }
        HeapStorage { items, init }
    }

    /// Number of slots.
    pub fn len(&self) -> (r: usize)
        ensures
            r == self@.len(),
    {
        self.items.len()
    }

    /// A reference to the value in slot `index`.
    pub fn index(&self, index: usize) -> (r: &T)
        requires
            index < self@.len(),
        ensures
            *r == self@[index as int],
    {
        &self.items[index]
    }

    /// Whether slot `index` holds an initialised element.
    pub fn is_init(&self, index: usize) -> (r: bool)
        requires
            self.wf(),
            index < self@.len(),
        ensures
            r == self.init_map()[index as int],
    {
        self.init[index]
    }

    /// Writes `value` into slot `index` and marks the slot initialised.
    pub fn set(&mut self, index: usize, value: T) -> (r: ())
        requires
            old(self).wf(),
            index < old(self)@.len(),
        ensures
            final(self).wf(),
            final(self)@ == old(self)@.update(index as int, value),
            final(self).init_map() == old(self).init_map().update(index as int, true),
    {
        self.items.set(index, value);
        self.init.set(index, true);
    }

    /// Marks slot `index` as no longer holding an initialised element; the
    /// stale value stays in place.
    pub fn clear_init(&mut self, index: usize) -> (r: ())
        requires
            old(self).wf(),
            index < old(self)@.len(),
        ensures
            final(self).wf(),
            final(self)@ == old(self)@,
            final(self).init_map() == old(self).init_map().update(index as int, false),
    {
        self.init.set(index, false);
    }

    /// The `count` slots that start at `index` and wrap at the end of the
    /// ring, as a head slice and a (possibly empty) tail slice.
    pub fn next_chunk<'a>(&'a self, index: usize, count: usize) -> (r: (&'a [T], &'a [T]))
        requires
            index < self@.len(),
            count <= self@.len(),
        ensures
            r.0@ + r.1@ == ring_seg(self@, index as int, count as int),
            r.0@.len() + r.1@.len() == count,
            index + count > self@.len() ==> r.0@.len() == self@.len() - index,
            index + count <= self@.len() ==> r.1@.len() == 0,
    {
        let n = self.items.len();
        let s = self.items.as_slice();
        if count > n - index {
            let head = slice_subrange(s, index, n);
            let tail = slice_subrange(s, 0, count - (n - index));
            proof {
                assert(head@ + tail@ =~= ring_seg(self@, index as int, count as int));
            }
            (head, tail)
        } else {
            let head = slice_subrange(s, index, index + count);
            let tail = slice_subrange(s, 0, 0);
            proof {
                assert(head@ + tail@ =~= ring_seg(self@, index as int, count as int));
            }
            (head, tail)
        }
    }

    /// Copies `src` into the `src.len()` slots that start at `index`, wrapping
    /// at the end of the ring, and marks them initialised.
    pub fn write_ring(&mut self, index: usize, src: &[T]) -> (r: ())
        where T: Copy
        requires
            old(self).wf(),
            index < old(self)@.len(),
            src@.len() <= old(self)@.len(),
        ensures
            final(self).wf(),
            final(self)@.len() == old(self)@.len(),
            forall|p: int| #![trigger final(self)@[p]] 0 <= p < final(self)@.len() ==> {
                let d = ring_dist(index as int, p, final(self)@.len() as int);
                if d < src@.len() {
                    final(self)@[p] == src@[d] && final(self).init_map()[p]
                } else {
                    final(self)@[p] == old(self)@[p]
                        && final(self).init_map()[p] == old(self).init_map()[p]
                }
            },
    {
        let ghost pre = *self;
        let n = self.items.len();
        let count = src.len();
        let mut j: usize = 0;
        while j < count
            invariant
                pre.wf(),
                self.wf(),
                index < pre@.len(),
                n == pre@.len(),
                count == src@.len(),
                count <= n,
                j <= count,
                self@.len() == n,
                forall|p: int| #![trigger self@[p]] 0 <= p < n ==> {
                    let d = ring_dist(index as int, p, n as int);
                    if d < j {
                        self@[p] == src@[d] && self.init_map()[p]
                    } else {
                        self@[p] == pre@[p] && self.init_map()[p] == pre.init_map()[p]
                    }
                },
            decreases count - j,
        {
            let ghost snap = *self;
            let pos = if j < n - index { index + j } else { j - (n - index) };
            proof {
                assert(pos == ring_pos(index as int, j as int, n as int));
                assert(ring_dist(index as int, pos as int, n as int) == j);
            }
            self.set(pos, src[j]);
            proof {
                assert forall|p: int| #![trigger self@[p]] 0 <= p < n implies {
                    let d = ring_dist(index as int, p, n as int);
                    if d < j + 1 {
                        self@[p] == src@[d] && self.init_map()[p]
                    } else {
                        self@[p] == pre@[p] && self.init_map()[p] == pre.init_map()[p]
                    }
                } by {
                    let d = ring_dist(index as int, p, n as int);
                    if d == j {
                        assert(p == pos);
                    } else {
                        assert(self@[p] == snap@[p]);
                        assert(self.init_map()[p] == snap.init_map()[p]);
                    }
                }
            }
            j = j + 1;
        }
    }

    /// Clones `src` into the `src.len()` slots that start at `index`,
    /// wrapping at the end of the ring, and marks them initialised.
    pub fn clone_ring(&mut self, index: usize, src: &[T]) -> (r: ())
        where T: Clone
        requires
            old(self).wf(),
            index < old(self)@.len(),
            src@.len() <= old(self)@.len(),
        ensures
            final(self).wf(),
            final(self)@.len() == old(self)@.len(),
            forall|p: int| #![trigger final(self)@[p]] 0 <= p < final(self)@.len() ==> {
                let d = ring_dist(index as int, p, final(self)@.len() as int);
                if d < src@.len() {
                    cloned::<T>(src@[d], final(self)@[p]) && final(self).init_map()[p]
                } else {
                    final(self)@[p] == old(self)@[p]
                        && final(self).init_map()[p] == old(self).init_map()[p]
                }
            },
    {
        let ghost pre = *self;
        let n = self.items.len();
        let count = src.len();
        let mut j: usize = 0;
        while j < count
            invariant
                pre.wf(),
                self.wf(),
                index < pre@.len(),
                n == pre@.len(),
                count == src@.len(),
                count <= n,
                j <= count,
                self@.len() == n,
                forall|p: int| #![trigger self@[p]] 0 <= p < n ==> {
                    let d = ring_dist(index as int, p, n as int);
                    if d < j {
                        cloned::<T>(src@[d], self@[p]) && self.init_map()[p]
                    } else {
                        self@[p] == pre@[p] && self.init_map()[p] == pre.init_map()[p]
                    }
                },
            decreases count - j,
        {
            let ghost snap = *self;
            let pos = if j < n - index { index + j } else { j - (n - index) };
            proof {
                assert(pos == ring_pos(index as int, j as int, n as int));
                assert(ring_dist(index as int, pos as int, n as int) == j);
            }
            let v = src[j].clone();
            self.set(pos, v);
            proof {
                assert forall|p: int| #![trigger self@[p]] 0 <= p < n implies {
                    let d = ring_dist(index as int, p, n as int);
                    if d < j + 1 {
                        cloned::<T>(src@[d], self@[p]) && self.init_map()[p]
                    } else {
                        self@[p] == pre@[p] && self.init_map()[p] == pre.init_map()[p]
                    }
                } by {
                    let d = ring_dist(index as int, p, n as int);
                    if d == j {
                        assert(p == pos);
                    } else {
                        assert(self@[p] == snap@[p]);
                        assert(self.init_map()[p] == snap.init_map()[p]);
                    }
                }
            }
            j = j + 1;
        }
    }

    /// A fresh vector holding clones of the `count` slots that start at
    /// `index`, in ring order.
    pub fn read_ring_clone(&self, index: usize, count: usize) -> (r: Vec<T>)
        where T: Clone
        requires
            index < self@.len(),
            count <= self@.len(),
        ensures
            r@.len() == count,
            forall|j: int| 0 <= j < count
                ==> cloned::<T>(self@[ring_pos(index as int, j, self@.len() as int)], #[trigger] r@[j]),
    {
        let n = self.items.len();
        let mut out: Vec<T> = Vec::new();
        let mut j: usize = 0;
        while j < count
            invariant
                index < self@.len(),
                n == self@.len(),
                count <= n,
                j <= count,
                out@.len() == j,
                forall|k: int| 0 <= k < j
                    ==> cloned::<T>(self@[ring_pos(index as int, k, n as int)], #[trigger] out@[k]),
            decreases count - j,
        {
            let pos = if j < n - index { index + j } else { j - (n - index) };
            proof {
                assert(pos == ring_pos(index as int, j as int, n as int));
            }
            out.push(self.index(pos).clone());
            j = j + 1;
        }
        out
    }

    /// A fresh vector holding copies of the `count` slots that start at
    /// `index`, in ring order.
    pub fn read_ring(&self, index: usize, count: usize) -> (r: Vec<T>)
        where T: Copy
        requires
            index < self@.len(),
            count <= self@.len(),
        ensures
            r@ == ring_seg(self@, index as int, count as int),
    {
        let n = self.items.len();
        let mut out: Vec<T> = Vec::new();
        let mut j: usize = 0;
        while j < count
            invariant
                index < self@.len(),
                n == self@.len(),
                count <= n,
                j <= count,
                out@ == ring_seg(self@, index as int, count as int).take(j as int),
            decreases count - j,
        {
            let pos = if j < n - index { index + j } else { j - (n - index) };
            proof {
                assert(pos == ring_pos(index as int, j as int, n as int));
            }
            out.push(*self.index(pos));
            proof {
                assert(out@ =~= ring_seg(self@, index as int, count as int).take(j + 1));
            }
            j = j + 1;
        }
        proof {
            assert(out@ =~= ring_seg(self@, index as int, count as int));
        }
        out
    }
}

/// Slot storage created from an owned fixed-size array; in this model it
/// shares the heap-backed representation, keeping the compile-time length as
/// part of its contract.
pub struct StackStorage<T, const N: usize> {
    pub(crate) inner: HeapStorage<T>,
}

impl<T, const N: usize> View for StackStorage<T, N> {
    type V = Seq<T>;

    closed spec fn view(&self) -> Seq<T> {
        self.inner@
    }
}

impl<T, const N: usize> StackStorage<T, N> {
    /// Which slots hold an initialised element.
    pub open(crate) spec fn init_map(&self) -> Seq<bool> {
        self.inner.init_map()
    }

    /// The storage holds exactly `N` slots, each with its `init` record.
    pub open spec fn wf(&self) -> bool {
        &&& self.init_map().len() == self@.len()
        &&& self@.len() == N
    }

    /// Builds storage from an owned array of already-initialised elements.
    pub fn from(value: [T; N]) -> (r: Self)
        ensures
            r.wf(),
            r@ == value@,
            forall|i: int| 0 <= i < N ==> r.init_map()[i],
    {
        StackStorage { inner: HeapStorage::from(array_to_vec(value)) }
    }

    /// Number of slots.
    pub fn len(&self) -> (r: usize)
        ensures
            r == self@.len(),
    {
        self.inner.len()
    }

    /// A reference to the value in slot `index`.
    pub fn index(&self, index: usize) -> (r: &T)
        requires
            index < self@.len(),
        ensures
            *r == self@[index as int],
    {
        self.inner.index(index)
    }

    /// Whether slot `index` holds an initialised element.
    pub fn is_init(&self, index: usize) -> (r: bool)
        requires
            self.wf(),
            index < self@.len(),
        ensures
            r == self.init_map()[index as int],
    {
        self.inner.is_init(index)
    }

    /// The `count` slots that start at `index` and wrap at the end of the
    /// ring, as a head slice and a (possibly empty) tail slice.
    pub fn next_chunk<'a>(&'a self, index: usize, count: usize) -> (r: (&'a [T], &'a [T]))
        requires
            index < self@.len(),
            count <= self@.len(),
        ensures
            r.0@ + r.1@ == ring_seg(self@, index as int, count as int),
            r.0@.len() + r.1@.len() == count,
    {
        self.inner.next_chunk(index, count)
    }
}

} // verus!
