//! The readiness flag: a one-way flag marking that a rendering surface has
//! finished bootstrapping and may safely receive patches.
//!
//! The flag starts "not ready" and transitions to "ready" exactly once, when
//! the surface signals that its bootstrap is complete. No operation resets
//! it, so once "ready" has been observed it is never un-observed. No
//! mutation batch may be applied to a surface while its flag reads "not
//! ready"; batches produced before readiness accumulate in the edit queue.

use vstd::prelude::*;

verus! {

/// A one-way bootstrap-complete flag for a rendering surface.
pub struct ReadinessFlag {
    is_set: bool,
}

impl ReadinessFlag {
    /// Whether the surface has signalled that its bootstrap is complete.
    pub closed spec fn ready(&self) -> bool {
        self.is_set
    }

    /// A fresh flag: the surface has not bootstrapped yet.
    pub fn new() -> (g: ReadinessFlag)
        ensures
            !g.ready(),
    {
        ReadinessFlag { is_set: false }
    }

    /// Record that the surface finished bootstrapping. The transition is
    /// monotonic: after this call the flag reads "ready" forever, whether or
    /// not it already did.
    pub fn set_ready(&mut self)
        ensures
            final(self).ready(),
    {
        self.is_set = true;
    }

    /// Read the flag. This is the check the dispatcher makes before every
    /// drain attempt.
    pub fn is_ready(&self) -> (r: bool)
        ensures
            r == self.ready(),
    {
        self.is_set
    }
}

} // verus!
