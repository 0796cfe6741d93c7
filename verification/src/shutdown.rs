//! The shutdown decision: however many termination signals the process
//! receives, the shard manager is asked to shut down exactly once.
//! Listening for the signals and making the call are process plumbing
//! and stay outside the library.

use vstd::prelude::*;

verus! {

/// Grants the one graceful shutdown of the gateway client.
pub struct ShutdownGuard {
    requested: bool,
}

impl ShutdownGuard {
    /// Whether a shutdown was already granted.
    pub closed spec fn is_requested(&self) -> bool {
        self.requested
    }

    /// A fresh guard: no shutdown granted yet.
    pub fn new() -> (g: ShutdownGuard)
        ensures
            !g.is_requested(),
    {
        ShutdownGuard { requested: false }
    }

    /// Decides what a delivered termination signal does: the first signal
    /// is granted the shutdown call, every later one is refused.
    pub fn on_signal(&mut self) -> (shutdown_now: bool)
        ensures
            shutdown_now == !old(self).is_requested(),
            final(self).is_requested(),
    {
        let first = !self.requested;
        self.requested = true;
        first
    }
}

/// From a fresh guard, a shutdown is granted exactly once: the first
/// signal is granted, and any signal after a granted one is refused,
/// as the contract of `on_signal` relates the guard's states.
pub proof fn lemma_shutdown_exactly_once(
    g0: ShutdownGuard,
    g1: ShutdownGuard,
    g2: ShutdownGuard,
    first: bool,
    second: bool,
)
    requires
        !g0.is_requested(),
        first == !g0.is_requested(),
        g1.is_requested(),
        second == !g1.is_requested(),
        g2.is_requested(),
    ensures
        first,
        !second,
{
}

} // verus!
