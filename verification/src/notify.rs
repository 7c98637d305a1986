//! The change notifier: a single-slot, value-less wake signal.
//!
//! Signaling marks "pending"; a wait observes and clears "pending". Pending is
//! a boolean, not a count, so any number of signals issued between two waits
//! collapse into exactly one resumption of the single waiter. Suspension
//! itself is the scheduler's business; this type holds the slot's state and
//! its transitions, and the waiter polls it with `take` at each wake-up.

use vstd::prelude::*;

verus! {

/// What one `signal` call leaves in the slot, whatever was there before.
pub open spec fn signaled_pending(p: bool) -> bool {
    true
}

/// The slot's state after `k` further `signal` calls, starting from `p`.
pub open spec fn pending_after_signals(p: bool, k: nat) -> bool
    decreases k,
{
    if k == 0 {
        p
    } else {
        signaled_pending(pending_after_signals(p, (k - 1) as nat))
    }
}

/// A wait on a slot in state `p` resumes at once exactly when `p` holds.
pub open spec fn wait_resolves(p: bool) -> bool {
    p
}

/// The single-slot coalescing notifier. At most one task may wait on a given
/// instance; which waiter a signal resumes is defined only for one.
pub struct Notifier {
    pending: bool,
}

impl Notifier {
    /// Whether a notification is outstanding: the slot's whole abstract state.
    pub closed spec fn is_pending(self) -> bool {
        self.pending
    }

    /// A fresh notifier has no notification outstanding.
    pub fn new() -> (n: Notifier)
        ensures
            !n.is_pending(),
    {
        Notifier { pending: false }
    }

    /// Marks "pending". Signaling while already pending is a no-op in effect:
    /// the slot holds one notification at most, never a count.
    pub fn signal(&mut self)
        ensures
            final(self).is_pending() == signaled_pending(old(self).is_pending()),
            final(self).is_pending(),
    {
        self.pending = true;
    }

    /// The non-suspending half of a wait: reports whether a notification was
    /// outstanding and atomically clears it. A waiter that gets `false` goes
    /// back to sleep; one that gets `true` has consumed the one pending
    /// notification.
    pub fn take(&mut self) -> (resumed: bool)
        ensures
            resumed == wait_resolves(old(self).is_pending()),
            !final(self).is_pending(),
    {
        let was: bool = self.pending;
        self.pending = false;
        was
    }
}

/// Coalescing: any run of `k >= 1` signals issued between two waits leaves the
/// slot exactly as a single signal would, so the waiter resumes exactly once
/// for the whole run, learning only that something changed.
pub proof fn lemma_signal_coalesces(p: bool, k: nat)
    requires
        k >= 1,
    ensures
        pending_after_signals(p, k) == pending_after_signals(p, 1),
        pending_after_signals(p, k),
    decreases k,
{
    if k > 1 {
        lemma_signal_coalesces(p, (k - 1) as nat);
    }
}

/// Liveness: once anything has signaled at least once, the waiter's next wait
/// resolves; no notification is lost to coalescing.
pub proof fn lemma_wait_resolves_after_signal(p: bool, k: nat)
    requires
        k >= 1,
    ensures
        wait_resolves(pending_after_signals(p, k)),
{
    lemma_signal_coalesces(p, k);
}

} // verus!
