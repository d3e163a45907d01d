//! The caller-visible handles: one per participant, each owning one position
//! in the ring.

pub mod async_iterators;
pub mod cons_iter;
pub mod detached;
pub mod prod_iter;
pub mod work_iter;

pub use cons_iter::ConsIter;
pub use detached::Detached;
pub use prod_iter::ProdIter;
pub use work_iter::WorkIter;
