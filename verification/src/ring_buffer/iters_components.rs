//! Index state: the position counters that the participants publish, plus the
//! count of live handles.
//!
//! Two flavours share one contract.  A non-mutable component keeps a producer
//! and a consumer index; the worker index it reports is the producer's, which
//! is the consumer's successor when no worker exists.  A mutable component
//! keeps all three counters.

use vstd::prelude::*;

verus! {

/// The counters a ring buffer reads and publishes.
///
/// `work()` is always the index of the consumer's successor: the worker's own
/// counter on a mutable component, the producer's counter otherwise.
pub trait IterComponent: Sized {
    /// Whether this component carries a worker counter of its own.
    spec fn mutable() -> bool;

    /// The producer's published index.
    spec fn prod(&self) -> usize;

    /// The consumer's successor's published index.
    spec fn work(&self) -> usize;

    /// The consumer's published index.
    spec fn cons(&self) -> usize;

    /// How many handles are still alive.
    spec fn alive(&self) -> u8;

    /// A fresh component: all counters zero, one live handle per participant.
    fn component_default() -> (r: Self)
        ensures
            r.prod() == 0,
            r.work() == 0,
            r.cons() == 0,
            r.alive() == if Self::mutable() { 3u8 } else { 2u8 },
    ;

    /// Whether this component carries a worker counter of its own.
    fn is_mutable() -> (r: bool)
        ensures
            r == Self::mutable(),
    ;

    /// Reads the producer index.
    fn prod_index(&self) -> (r: usize)
        ensures
            r == self.prod(),
    ;

    /// Reads the consumer's successor's index.
    fn work_index(&self) -> (r: usize)
        ensures
            r == self.work(),
    ;

    /// Reads the consumer index.
    fn cons_index(&self) -> (r: usize)
        ensures
            r == self.cons(),
    ;

    /// Publishes the producer index.  On a non-mutable component this also
    /// moves the worker index, which mirrors the producer's.
    fn set_prod_index(&mut self, index: usize)
        ensures
            final(self).prod() == index,
            final(self).work() == if Self::mutable() { old(self).work() } else { index },
            final(self).cons() == old(self).cons(),
            final(self).alive() == old(self).alive(),
    ;

    /// Publishes the worker index; a no-op on a non-mutable component.
    fn set_work_index(&mut self, index: usize)
        ensures
            final(self).prod() == old(self).prod(),
            final(self).work() == if Self::mutable() { index } else { old(self).work() },
            final(self).cons() == old(self).cons(),
            final(self).alive() == old(self).alive(),
    ;

    /// Publishes the consumer index.
    fn set_cons_index(&mut self, index: usize)
        ensures
            final(self).prod() == old(self).prod(),
            final(self).work() == old(self).work(),
            final(self).cons() == index,
            final(self).alive() == old(self).alive(),
    ;

    /// Records that a handle was dropped; returns the count before the drop.
    fn drop_iter(&mut self) -> (r: u8)
        requires
            old(self).alive() >= 1,
        ensures
            r == old(self).alive(),
            final(self).alive() == old(self).alive() - 1,
            final(self).prod() == old(self).prod(),
            final(self).work() == old(self).work(),
            final(self).cons() == old(self).cons(),
    ;

    /// How many handles are still alive.
    fn alive_iters(&self) -> (r: u8)
        ensures
            r == self.alive(),
    ;
}

/// Components that split into a producer, a worker and a consumer.
pub trait MutIterComp: IterComponent {
    /// A mutable component really carries its own worker counter.
    proof fn mutable_is_set()
        ensures
            Self::mutable(),
    ;
}

/// Components that split into a producer and a consumer only.
pub trait NonMutIterComp: IterComponent {
    /// A non-mutable component has no worker counter of its own.
    proof fn mutable_is_clear()
        ensures
            !Self::mutable(),
    ;
}

/// Non-mutable index state for a single execution context: plain counters.
pub struct LocalComp {
    pub(crate) prod_idx: usize,
    pub(crate) cons_idx: usize,
    pub(crate) alive_iters: u8,
}

impl IterComponent for LocalComp {
    open spec fn mutable() -> bool {
        false
    }

    open(crate) spec fn prod(&self) -> usize {
        self.prod_idx
    }

    open(crate) spec fn work(&self) -> usize {
        self.prod_idx
    }

    open(crate) spec fn cons(&self) -> usize {
        self.cons_idx
    }

    open(crate) spec fn alive(&self) -> u8 {
        self.alive_iters
    }

    fn component_default() -> (r: Self) {
        LocalComp { prod_idx: 0, cons_idx: 0, alive_iters: 2 }
    }

    fn is_mutable() -> (r: bool) {
        false
    }

    fn prod_index(&self) -> (r: usize) {
        self.prod_idx
    }

    fn work_index(&self) -> (r: usize) {
        self.prod_idx
    }

    fn cons_index(&self) -> (r: usize) {
        self.cons_idx
    }

    fn set_prod_index(&mut self, index: usize) {
        self.prod_idx = index;
    }

    fn set_work_index(&mut self, index: usize) {
    }

    fn set_cons_index(&mut self, index: usize) {
        self.cons_idx = index;
    }

    fn drop_iter(&mut self) -> (r: u8) {
        let ret = self.alive_iters;
        self.alive_iters = self.alive_iters - 1;
        ret
    }

    fn alive_iters(&self) -> (r: u8) {
        self.alive_iters
    }
}

impl NonMutIterComp for LocalComp {
    proof fn mutable_is_clear() {
    }
}

/// Mutable index state for a single execution context: plain counters for all
/// three participants.
pub struct LocalCompMut {
    pub(crate) prod_idx: usize,
    pub(crate) work_idx: usize,
    pub(crate) cons_idx: usize,
    pub(crate) alive_iters: u8,
}

impl IterComponent for LocalCompMut {
    open spec fn mutable() -> bool {
        true
    }

    open(crate) spec fn prod(&self) -> usize {
        self.prod_idx
    }

    open(crate) spec fn work(&self) -> usize {
        self.work_idx
    }

    open(crate) spec fn cons(&self) -> usize {
        self.cons_idx
    }

    open(crate) spec fn alive(&self) -> u8 {
        self.alive_iters
    }

    fn component_default() -> (r: Self) {
        LocalCompMut { prod_idx: 0, work_idx: 0, cons_idx: 0, alive_iters: 3 }
    }

    fn is_mutable() -> (r: bool) {
        true
    }

    fn prod_index(&self) -> (r: usize) {
        self.prod_idx
    }

    fn work_index(&self) -> (r: usize) {
        self.work_idx
    }

    fn cons_index(&self) -> (r: usize) {
        self.cons_idx
    }

    fn set_prod_index(&mut self, index: usize) {
        self.prod_idx = index;
    }

    fn set_work_index(&mut self, index: usize) {
        self.work_idx = index;
    }

    fn set_cons_index(&mut self, index: usize) {
        self.cons_idx = index;
    }

    fn drop_iter(&mut self) -> (r: u8) {
        let ret = self.alive_iters;
        self.alive_iters = self.alive_iters - 1;
        ret
    }

    fn alive_iters(&self) -> (r: u8) {
        self.alive_iters
    }
}

impl LocalCompMut {
    /// A fresh mutable component, as [`IterComponent::component_default`].
    pub fn default() -> (r: Self)
        ensures
            r.prod() == 0,
            r.work() == 0,
            r.cons() == 0,
            r.alive() == 3u8,
    {
        Self::component_default()
    }
}

impl MutIterComp for LocalCompMut {
    proof fn mutable_is_set() {
    }
}

} // verus!
