//! The cooperative shutdown primitive: a one-shot, payload-less signal.
//! While it is pending the server keeps serving; once it resolves the
//! server stops accepting new work. Resolution is terminal: resolving
//! again, or polling again, changes nothing.

use vstd::prelude::*;

verus! {

/// A single-resolution, payload-less cancellation signal.
#[derive(Clone, Copy, Debug, PartialEq, Eq, Structural)]
pub struct ShutdownSignal {
    /// Whether the signal has resolved.
    pub resolved: bool,
}

/// The state a resolution attempt leads to, whatever the state it starts
/// from: the resolved signal.
pub open spec fn resolve_spec(s: ShutdownSignal) -> ShutdownSignal {
    ShutdownSignal { resolved: true }
}

impl ShutdownSignal {
    /// A signal that never resolves on its own: the default, under which
    /// the server serves forever.
    pub fn pending() -> (s: Self)
        ensures
            !s.resolved,
    {
        ShutdownSignal { resolved: false }
    }

    /// A signal that has already resolved: the server stops at once.
    pub fn already_resolved() -> (s: Self)
        ensures
            s.resolved,
    {
        ShutdownSignal { resolved: true }
    }

    /// Resolve the signal. Resolution is terminal and idempotent: the
    /// signal ends resolved whatever state it was in, and resolving an
    /// already-resolved signal changes nothing.
    pub fn resolve(&mut self)
        ensures
            *final(self) == resolve_spec(*old(self)),
            old(self).resolved ==> *final(self) == *old(self),
    {
        self.resolved = true;
    }

    /// Ask whether the signal has resolved. Polling never changes the
    /// signal, however often it is repeated.
    pub fn poll(&self) -> (r: bool)
        ensures
            r == self.resolved,
    {
        self.resolved
    }
}

/// Resolution is terminal: it always yields the resolved signal, and a
/// second resolution attempt has no further effect.
pub proof fn lemma_resolve_terminal(s: ShutdownSignal)
    ensures
        resolve_spec(s).resolved,
        resolve_spec(resolve_spec(s)) == resolve_spec(s),
{
}

} // verus!
