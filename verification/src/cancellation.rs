//! Cancelling a spawned task.
//!
//! A value of `Aborted` exists only for a handle on which cancellation was
//! signalled: nothing but `cancel` makes one.
use tokio::task::JoinHandle;
use vstd::prelude::*;

verus! {

/// The handle of a task that was told to stop. The task ends at its next
/// yield point; whoever holds this value may wait for that, or drop it.
pub struct Aborted {
    handle: JoinHandle<()>,
}

impl Aborted {
    /// The handle on which cancellation was signalled.
    pub closed spec fn handle(&self) -> JoinHandle<()> {
        self.handle
    }
}

/// Signals cancellation to the task behind `handle`, with
/// `tokio::task::JoinHandle::abort`, and returns the handle as an aborted
/// one. The call does not wait for the task to end.
#[verifier::external_body]
pub(crate) fn cancel(handle: JoinHandle<()>) -> (aborted: Aborted)
    ensures
        aborted.handle() == handle,
{
    handle.abort();
    Aborted { handle }
}

} // verus!
