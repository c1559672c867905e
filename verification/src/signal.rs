//! The reload signal: a single-slot dirty bit bridging the watcher side to
//! the single-threaded consumer side. Any number of `mark_changed` calls
//! between two polls collapse into one pending reload; there is no queue and
//! no payload.

use vstd::prelude::*;

verus! {

/// A boolean flag recording "a reload is pending". The watcher side sets it;
/// the consumer side reads-and-clears it. It is a dirty bit, not a counter.
pub struct ReloadSignal {
    /// Model state: whether a reload is pending.
    pub pending: bool,
}

/// The state of a signal that has never been marked.
pub open spec fn fresh_signal() -> ReloadSignal {
    ReloadSignal { pending: false }
}

/// What `mark_changed` does to a signal: it becomes pending, whatever it was.
pub open spec fn marked(s: ReloadSignal) -> ReloadSignal {
    ReloadSignal { pending: true }
}

/// What `take_if_changed` does: it observes the pending flag and clears it.
pub open spec fn taken(s: ReloadSignal) -> (bool, ReloadSignal) {
    (s.spec_pending(), ReloadSignal { pending: false })
}

impl ReloadSignal {
    /// Whether a reload is pending.
    pub open spec fn spec_pending(&self) -> bool {
        self.pending
    }

    /// A signal with nothing pending.
    pub fn new() -> (s: Self)
        ensures
            s == fresh_signal(),
    {
        ReloadSignal { pending: false }
    }

    /// Record that the watched file has changed. Idempotent: marking an
    /// already-pending signal changes nothing observable.
    pub fn mark_changed(&mut self)
        ensures
            *final(self) == marked(*old(self)),
            final(self).spec_pending(),
    {
        self.pending = true;
    }

    /// Observe and clear the pending flag in one step. Returns whether a
    /// reload had been pending; afterwards nothing is pending, so an
    /// immediately following call returns false.
    pub fn take_if_changed(&mut self) -> (r: bool)
        ensures
            r == old(self).spec_pending(),
            !final(self).spec_pending(),
            (r, *final(self)) == taken(*old(self)),
    {
        let r = self.pending;
        self.pending = false;
        r
    }
}

/// The signal never fires without a prior mark and never fires twice: a fresh
/// signal yields false; whatever a take observed, the take that follows it
/// observes false; and a take right after a mark observes true.
pub proof fn lemma_signal_single_fire(s: ReloadSignal)
    ensures
        !taken(fresh_signal()).0,
        !taken(taken(s).1).0,
        taken(marked(s)).0,
{
}

} // verus!
