//! The instrumented lock: a non-reentrant mutual-exclusion wrapper around a
//! protected value, whose every acquisition and release lands in the
//! diagnostic log, and which survives a holder's abnormal termination in a
//! recoverable poisoned state.
//!
//! The lock is modeled as an explicit flag. Non-reentrancy is a first-class
//! property: acquiring while already held would block the single logical flow
//! forever, so `lock` requires the flag to be clear — which turns "never
//! re-enter the held lock" into a proof obligation on every verified caller.

use vstd::prelude::*;

use crate::ledger::Event;
use crate::ledger::Ledger;

verus! {

/// A mutual-exclusion wrapper around a protected value of type `T`.
///
/// At most one logical holder at a time; no recursive acquisition. The
/// `locked` flag plays the role of the scoped guard: operations that read or
/// write `value` require it to be set, and the flow that set it must clear it
/// again on every exit path.
pub struct MutexWrap<T> {
    /// Whether the lock is currently held.
    pub locked: bool,
    /// Whether a prior holder terminated abnormally while holding the lock.
    pub poisoned: bool,
    /// The protected value; to be read or written only while `locked`.
    pub value: T,
}

impl<T> MutexWrap<T> {
    /// Wraps `t` in a fresh, unlocked, unpoisoned lock.
    pub fn new(t: T) -> (r: Self)
        ensures
            !r.locked,
            !r.poisoned,
            r.value == t,
    {
        MutexWrap { locked: false, poisoned: false, value: t }
    }

    /// Acquires the lock and logs the acquisition.
    ///
    /// Returns whether the lock was poisoned. Access to the protected value
    /// is granted either way: a caller that receives `true` recovers the
    /// possibly inconsistent value explicitly, instead of being locked out
    /// for good.
    ///
    /// A second acquisition by the flow that already holds the lock would
    /// block forever, so that case is excluded by precondition.
    pub fn lock(&mut self, led: &mut Ledger) -> (poisoned: bool)
        requires
            !old(self).locked,
        ensures
            final(self).locked,
            final(self).poisoned == old(self).poisoned,
            final(self).value == old(self).value,
            poisoned == old(self).poisoned,
            final(led).count == old(led).count,
            final(led).ext == old(led).ext,
            final(led).log@ == old(led).log@.push(Event::Locking),
    {
        led.log.push(Event::Locking);
        self.locked = true;
        self.poisoned
    }

    /// Releases the lock and logs the release.
    pub fn unlock(&mut self, led: &mut Ledger)
        requires
            old(self).locked,
        ensures
            !final(self).locked,
            final(self).poisoned == old(self).poisoned,
            final(self).value == old(self).value,
            final(led).count == old(led).count,
            final(led).ext == old(led).ext,
            final(led).log@ == old(led).log@.push(Event::Unlocking),
    {
        led.log.push(Event::Unlocking);
        self.locked = false;
    }

    /// Models the holder terminating abnormally while holding the lock.
    ///
    /// The lock is released (a scoped guard fires on unwinding too, so the
    /// release is still logged) and enters the poisoned state; the protected
    /// value stays in place, possibly inconsistent, for the next acquirer to
    /// recover.
    pub fn poison(&mut self, led: &mut Ledger)
        requires
            old(self).locked,
        ensures
            !final(self).locked,
            final(self).poisoned,
            final(self).value == old(self).value,
            final(led).count == old(led).count,
            final(led).ext == old(led).ext,
            final(led).log@ == old(led).log@.push(Event::Unlocking),
    {
        led.log.push(Event::Unlocking);
        self.locked = false;
        self.poisoned = true;
    }
}

} // verus!
