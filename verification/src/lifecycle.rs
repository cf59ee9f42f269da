//! Ownership of the worker handle over the application's lifetime.
//!
//! The handle lives in a single slot. Storing happens once, on a successful
//! spawn; shutdown takes the handle out of the slot atomically, and only the
//! caller that actually received a handle may issue the kill. Taking from an
//! already-empty slot yields nothing, so a second shutdown signal is a silent
//! no-op. The host wraps the slot in its mutual-exclusion lock and must hold
//! that lock across each whole call here.

use vstd::prelude::*;

verus! {

/// Exclusive ownership token for the spawned worker process.
#[derive(Clone, Copy, PartialEq, Eq, Structural, Debug)]
pub struct WorkerHandle {
    /// Operating-system identifier of the worker process.
    pub pid: u32,
}

/// The single slot the worker handle lives in: populated while the worker is
/// considered running, empty once it has been stopped or never started.
#[derive(Debug)]
pub struct SidecarSlot {
    pub child: Option<WorkerHandle>,
}

/// One shutdown signal against a slot state: the slot is left empty, and the
/// previous occupant, if any, is the one process a kill is issued for.
pub open spec fn shutdown_step(child: Option<WorkerHandle>) -> (Option<WorkerHandle>, Option<
    WorkerHandle,
>) {
    (None, child)
}

impl SidecarSlot {
    /// The state before any spawn: no worker to stop.
    pub fn empty() -> (r: SidecarSlot)
        ensures
            r.child is None,
    {
        SidecarSlot { child: None }
    }

    pub fn is_running(&self) -> (r: bool)
        ensures
            r == (self.child is Some),
    {
        self.child.is_some()
    }

    /// Record a freshly spawned worker in the slot.
    pub fn store(&mut self, handle: WorkerHandle)
        ensures
            final(self).child == Some(handle),
    {
        self.child = Some(handle);
    }

    /// Atomically take the handle out for termination: the slot is empty
    /// afterwards, and the caller receives the handle exactly when one was
    /// present. Only a caller that receives `Some` may issue the kill.
    pub fn take_for_kill(&mut self) -> (r: Option<WorkerHandle>)
        ensures
            (final(self).child, r) == shutdown_step(old(self).child),
            final(self).child is None,
            r == old(self).child,
    {
        self.child.take()
    }
}

/// Record the outcome of the spawn attempt: a success populates the slot, a
/// failure leaves it exactly as it was — the application carries on without a
/// worker and surfaces the spawn error to its log instead of crashing.
pub fn record_spawn(slot: &mut SidecarSlot, outcome: Result<WorkerHandle, String>) -> (r: Result<
    (),
    String,
>)
    ensures
        outcome is Ok ==> final(slot).child == Some(outcome->Ok_0) && r is Ok,
        outcome is Err ==> final(slot).child == old(slot).child && r is Err && r->Err_0@
            == outcome->Err_0@,
{
    match outcome {
        Ok(handle) => {
            slot.store(handle);
            Ok(())
        },
        Err(message) => Err(message),
    }
}

/// The running worker is stopped at most once: however many shutdown signals
/// arrive, only the first to reach a populated slot receives a handle, every
/// later one receives nothing, and a kill is issued only for a received
/// handle.
pub proof fn lemma_kill_at_most_once(initial: Option<WorkerHandle>)
    ensures
        ({
            let (after_first, first_kill) = shutdown_step(initial);
            let (after_second, second_kill) = shutdown_step(after_first);
            &&& second_kill is None
            &&& !(first_kill is Some && second_kill is Some)
            &&& first_kill is Some ==> initial is Some
        }),
{
}

} // verus!
