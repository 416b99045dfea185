//! The wake-notification handle between an executor and a background operation.

use vstd::prelude::*;

verus! {

/// The signal half of a wake notifier.
///
/// An executor constructs one per run-to-completion call; the background
/// operation invokes `wake` when its result is published, and the executor's
/// wait consumes the signal before re-polling. The executable twin guards the
/// flag with a mutex and pairs it with a condition variable so that the waiting
/// thread is parked, not spinning; this record carries the protocol the pair
/// implements: `wake` asserts the signal, a wait consumes it.
pub struct EventWaker {
    /// True when a wake has been delivered and not yet consumed.
    pub notified: bool,
}

/// The signal state after a wake is delivered.
pub open spec fn spec_wake(w: EventWaker) -> EventWaker {
    EventWaker { notified: true }
}

impl EventWaker {
    /// A fresh notifier with no wake delivered.
    pub fn new() -> (w: EventWaker)
        ensures
            !w.notified,
    {
        EventWaker { notified: false }
    }

    /// Delivers a wake: asserts the signal, however often it was already set.
    pub fn wake(&mut self)
        ensures
            *final(self) == spec_wake(*old(self)),
            final(self).notified,
    {
        self.notified = true;
    }

    /// Consumes a pending wake, reporting whether one had been delivered.
    ///
    /// This is the resumption step of a wait: the executable twin blocks on a
    /// condition variable until the signal is set, then clears it exactly as
    /// stated here.
    pub fn take_notification(&mut self) -> (was_notified: bool)
        ensures
            !final(self).notified,
            was_notified == old(self).notified,
    {
        let was: bool = self.notified;
        self.notified = false;
        was
    }
}

/// Duplicate or spurious wakes are harmless: delivering a wake on an already
/// notified handle leaves it exactly as one delivery would, so an executor sees
/// at most "please re-poll", never anything a second delivery could corrupt.
pub proof fn duplicate_wake_harmless(w: EventWaker)
    ensures
        spec_wake(spec_wake(w)) == spec_wake(w),
        spec_wake(w).notified,
{
}

} // verus!
