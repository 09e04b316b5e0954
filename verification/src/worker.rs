//! The rendering engine worker's commits to the edit queue.
//!
//! The worker owns the UI tree and runs on its own execution context: it
//! suspends until work or a message arrives, runs one bounded cycle of the
//! diffing engine, and, if the cycle produced a batch, appends it to the
//! edit queue and wakes the foreground. The worker never blocks on the
//! readiness flag or on window existence; whether any surface is ready or
//! even exists does not change what it appends.

use vstd::prelude::*;
use crate::queue::EditQueue;

verus! {

/// Commit the batch of the one-time initial build. The very first cycle
/// always produces exactly one batch, the whole initial tree, and it is
/// queued before the steady-state loop begins — so the queue is guaranteed
/// non-empty in front of a later readiness transition.
pub fn worker_bootstrap(pending: &mut EditQueue, initial_batch: String)
    ensures
        final(pending)@ == old(pending)@.push(initial_batch),
        final(pending)@.len() > 0,
{
    pending.append(initial_batch);
}

/// Commit one steady-state work cycle: if the cycle produced a batch, append
/// it at the queue's new end and ask for a wake signal to the foreground;
/// an empty cycle changes nothing and wakes nobody.
pub fn worker_commit(pending: &mut EditQueue, produced: Option<String>) -> (wake: bool)
    ensures
        produced matches Some(batch) ==> final(pending)@ == old(pending)@.push(batch) && wake,
        produced is None ==> final(pending)@ == old(pending)@ && !wake,
{
    match produced {
        Some(batch) => {
            pending.append(batch);
            true
        }
        None => false,
    }
}

} // verus!
