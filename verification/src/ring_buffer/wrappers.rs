//! Declarations for the host task-wake handle that the asynchronous adapter
//! stores and signals.

use vstd::prelude::*;

verus! {

/// `core::task::Waker` carried through the wake slots; its contents are
/// opaque to the library.
#[verifier::external_type_specification]
#[verifier::external_body]
pub struct ExWaker(core::task::Waker);

/// Relies on `core::task::Waker::clone`: the duplicate wakes the same task
/// as the original.
#[verifier::external_body]
pub(crate) fn clone_waker(waker: &core::task::Waker) -> (r: core::task::Waker) {
    waker.clone()
}

/// Relies on `core::task::Waker::wake`: signals the task the handle belongs
/// to and consumes the handle.
#[verifier::external_body]
pub(crate) fn wake_waker(waker: core::task::Waker) {
    waker.wake()
}

} // verus!
