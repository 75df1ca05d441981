//! The shared cancellation signal: a one-way, idempotent shutdown flag.
//!
//! The signal starts out active and can only move to the cancelled state;
//! it never moves back. Cancelling is idempotent: once the flag is set,
//! further `cancel` calls leave it unchanged.

use vstd::prelude::*;

verus! {

/// A one-way shutdown flag: starts active, flips once to cancelled, and
/// every later read returns cancelled.
#[derive(Clone, Copy, Debug, PartialEq, Eq, Structural)]
pub struct CancellationSignal {
    pub cancelled: bool,
}

/// The state a signal is in after `cancel`: cancelled, whatever it held before.
pub open spec fn spec_cancel(s: CancellationSignal) -> CancellationSignal {
    CancellationSignal { cancelled: true }
}

impl CancellationSignal {
    /// Whether the signal has been cancelled.
    pub open spec fn spec_is_cancelled(&self) -> bool {
        self.cancelled
    }

    /// Creates a signal that has not been cancelled.
    pub fn new() -> (s: Self)
        ensures
            !s.spec_is_cancelled(),
    {
        CancellationSignal { cancelled: false }
    }

    /// Flips the signal to cancelled. Safe to call any number of times:
    /// the result does not depend on the state the signal was in.
    pub fn cancel(&mut self)
        ensures
            *final(self) == spec_cancel(*old(self)),
            final(self).spec_is_cancelled(),
    {
        self.cancelled = true;
    }

    /// Returns the current state: true once `cancel` has run, false before.
    pub fn is_cancelled(&self) -> (r: bool)
        ensures
            r == self.spec_is_cancelled(),
    {
        self.cancelled
    }
}

/// Cancelling is idempotent: a second `cancel` leaves the signal exactly as
/// the first left it, and the result never depends on the starting state.
pub proof fn lemma_cancel_idempotent(s: CancellationSignal, t: CancellationSignal)
    ensures
        spec_cancel(spec_cancel(s)) == spec_cancel(s),
        spec_cancel(s) == spec_cancel(t),
        spec_cancel(s).spec_is_cancelled(),
{
}

/// Cancellation is one-way: no operation of the signal ever produces an
/// uncancelled state from a cancelled one.
pub proof fn lemma_cancel_monotone(s: CancellationSignal)
    requires
        s.spec_is_cancelled(),
    ensures
        spec_cancel(s) == s,
{
}

} // verus!
