//! The process-scoped cache system: the single-slot cache behind the
//! instrumented lock, together with the share ledger, and the eviction
//! protocol that ties them together.
//!
//! A `System` value is the explicit stand-in for the process-wide singleton:
//! tests and applications construct one and pass it around, instead of
//! reaching for ambient global state.

use vstd::prelude::*;

use crate::cache::Cache;
use crate::ledger::Event;
use crate::ledger::Handle;
use crate::ledger::Ledger;
use crate::lock::MutexWrap;

verus! {

/// The cache behind its lock, plus the ledger of shares.
pub struct System {
    /// The single-slot cache, protected by the instrumented lock.
    pub lock: MutexWrap<Cache>,
    /// The share count, the external-handle tally, and the diagnostic log.
    pub led: Ledger,
}

impl System {
    /// Whether the cache slot currently holds a share.
    pub open spec fn occupied(self) -> bool {
        self.lock.value.resource
    }

    /// The count invariant: the number of live shares equals the number of
    /// live handles — the external ones tallied in the ledger, plus the one
    /// the cache slot holds when occupied.
    ///
    /// Every operation of the system preserves this invariant; it is what
    /// makes the protocol's "a count of two means the one other owner is the
    /// cache" inference sound. The inference also rests on a closed-world
    /// assumption: nothing outside these operations duplicates a share.
    pub open spec fn wf(self) -> bool {
        self.led.count as int == self.led.ext as int + (if self.occupied() { 1int } else { 0int })
    }

    /// The protocol's central inference, as a law: under the count
    /// invariant, a release that observes a count of exactly two while the
    /// slot is occupied is the second-to-last — exactly one external share
    /// is live, so the one other share must be the cache's own.
    ///
    /// This is what entitles [`System::release`] to evict on a count of two.
    /// It is a closed-world inference: it holds because the cache never
    /// keeps more than one share and every duplication goes through the
    /// ledger; any untracked duplication would break it.
    pub proof fn lemma_count_two_other_owner_is_cache(s: System)
        requires
            s.wf(),
            s.led.count == 2,
            s.occupied(),
        ensures
            s.led.ext == 1,
    {
    }

    /// A fresh system: empty slot, unlocked and unpoisoned lock, no resource
    /// created yet, empty log.
    pub fn new() -> (r: System)
        ensures
            r.wf(),
            r.led.count == 0,
            r.led.ext == 0,
            r.led.log@ == Seq::<Event>::empty(),
            !r.lock.locked,
            !r.lock.poisoned,
            !r.occupied(),
    {
        System { lock: MutexWrap::new(Cache { resource: false }), led: Ledger::new() }
    }

    /// Creates the resource: the first handle, with a count of one.
    ///
    /// The resource is created once by application code; a count of zero
    /// means no resource is live, so creation requires exactly that.
    pub fn create_handle(&mut self) -> (h: Handle)
        requires
            old(self).wf(),
            old(self).led.count == 0,
        ensures
            final(self).wf(),
            final(self).led.count == 1,
            final(self).led.ext == 1,
            final(self).led.log@ == old(self).led.log@,
            final(self).lock == old(self).lock,
            !final(self).occupied(),
    {
        self.led.count = 1;
        self.led.ext = 1;
        Handle::fresh()
    }

    /// Duplicates an external handle: one more share, one more external
    /// owner, and a `Cloning` event carrying the count observed immediately
    /// before the duplication.
    pub fn duplicate(&mut self, h: &Handle) -> (r: Handle)
        requires
            old(self).wf(),
            old(self).led.ext >= 1,
            old(self).led.count < u64::MAX,
        ensures
            final(self).wf(),
            final(self).led.count == old(self).led.count + 1,
            final(self).led.ext == old(self).led.ext + 1,
            final(self).led.log@ == old(self).led.log@
                + seq![(Event::Cloning { observed: old(self).led.count })],
            final(self).lock == old(self).lock,
            final(self).occupied() == old(self).occupied(),
    {
        self.led.log.push(Event::Cloning { observed: self.led.count });
        self.led.count = self.led.count + 1;
        self.led.ext = self.led.ext + 1;
        Handle::fresh()
    }

    /// Acquires the protecting lock; returns whether it was poisoned.
    ///
    /// The flow that already holds the lock must not call this again — that
    /// is the self-deadlock under study, excluded here by precondition.
    pub fn lock_cache(&mut self) -> (poisoned: bool)
        requires
            !old(self).lock.locked,
        ensures
            final(self).lock.locked,
            final(self).lock.poisoned == old(self).lock.poisoned,
            poisoned == old(self).lock.poisoned,
            final(self).occupied() == old(self).occupied(),
            final(self).led.count == old(self).led.count,
            final(self).led.ext == old(self).led.ext,
            final(self).led.log@ == old(self).led.log@.push(Event::Locking),
            old(self).wf() ==> final(self).wf(),
    {
        self.lock.lock(&mut self.led)
    }

    /// Releases the protecting lock.
    pub fn unlock_cache(&mut self)
        requires
            old(self).lock.locked,
        ensures
            !final(self).lock.locked,
            final(self).lock.poisoned == old(self).lock.poisoned,
            final(self).occupied() == old(self).occupied(),
            final(self).led.count == old(self).led.count,
            final(self).led.ext == old(self).led.ext,
            final(self).led.log@ == old(self).led.log@.push(Event::Unlocking),
            old(self).wf() ==> final(self).wf(),
    {
        self.lock.unlock(&mut self.led)
    }

    /// Models the holder of the lock terminating abnormally: the lock is
    /// released and poisoned; the cache and the ledger stay as they are.
    pub fn poison_lock(&mut self)
        requires
            old(self).lock.locked,
        ensures
            !final(self).lock.locked,
            final(self).lock.poisoned,
            final(self).occupied() == old(self).occupied(),
            final(self).led.count == old(self).led.count,
            final(self).led.ext == old(self).led.ext,
            final(self).led.log@ == old(self).led.log@.push(Event::Unlocking),
            old(self).wf() ==> final(self).wf(),
    {
        self.lock.poison(&mut self.led)
    }

    /// Inserts: duplicates the given external handle into the slot. Requires
    /// the lock to be held by the caller.
    ///
    /// A prior occupant is released as a plain cache-owned decrement. With
    /// the count invariant, that release always observes a count of at least
    /// three — the inserting caller's handle, the new duplicate, and the
    /// prior occupant — so it can never be mistaken for the second-to-last
    /// release, and no eviction recursion can start under the held lock.
    pub fn insert(&mut self, h: &Handle)
        requires
            old(self).wf(),
            old(self).lock.locked,
            old(self).led.ext >= 1,
            old(self).led.count < u64::MAX,
        ensures
            final(self).wf(),
            final(self).occupied(),
            final(self).lock.locked,
            final(self).lock.poisoned == old(self).lock.poisoned,
            final(self).led.ext == old(self).led.ext,
            old(self).occupied() ==> {
                &&& final(self).led.count == old(self).led.count
                &&& final(self).led.log@ == old(self).led.log@
                    + seq![
                        (Event::Cloning { observed: old(self).led.count }),
                        (Event::Dropping {
                            observed: (old(self).led.count + 1) as u64,
                            evicted: false,
                        }),
                    ]
            },
            !old(self).occupied() ==> {
                &&& final(self).led.count == old(self).led.count + 1
                &&& final(self).led.log@ == old(self).led.log@
                    + seq![(Event::Cloning { observed: old(self).led.count })]
            },
    {
        self.lock.value.add_resource(h, &mut self.led);
    }

    /// Peeks: returns an owned duplicate of the slot's share, or `None` if
    /// the slot is empty. Requires the lock to be held by the caller.
    pub fn peek(&mut self) -> (r: Option<Handle>)
        requires
            old(self).wf(),
            old(self).lock.locked,
            old(self).led.count < u64::MAX,
        ensures
            final(self).wf(),
            r.is_some() == old(self).occupied(),
            final(self).occupied() == old(self).occupied(),
            final(self).lock.locked,
            final(self).lock.poisoned == old(self).lock.poisoned,
            old(self).occupied() ==> {
                &&& final(self).led.count == old(self).led.count + 1
                &&& final(self).led.ext == old(self).led.ext + 1
                &&& final(self).led.log@ == old(self).led.log@
                    + seq![(Event::Cloning { observed: old(self).led.count })]
            },
            !old(self).occupied() ==> {
                &&& final(self).led.count == old(self).led.count
                &&& final(self).led.ext == old(self).led.ext
                &&& final(self).led.log@ == old(self).led.log@
            },
    {
        self.lock.value.get_resource(&mut self.led)
    }

    /// Evicts: clears the slot, releasing the cache-owned share it held as a
    /// plain decrement. Requires the lock to be held by the caller. On an
    /// empty slot this is a no-op — nothing is logged and nothing panics.
    pub fn evict(&mut self)
        requires
            old(self).wf(),
            old(self).lock.locked,
        ensures
            final(self).wf(),
            !final(self).occupied(),
            final(self).lock.locked,
            final(self).lock.poisoned == old(self).lock.poisoned,
            final(self).led.ext == old(self).led.ext,
            old(self).occupied() ==> {
                &&& final(self).led.count == old(self).led.count - 1
                &&& final(self).led.log@ == old(self).led.log@
                    + seq![(Event::Dropping { observed: old(self).led.count, evicted: false })]
            },
            !old(self).occupied() ==> {
                &&& final(self).led.count == old(self).led.count
                &&& final(self).led.log@ == old(self).led.log@
            },
    {
        self.lock.value.drop_resource(&mut self.led);
    }

    /// The final step of a release: log the `Dropping` event — carrying the
    /// count that was observed at the start of the release, inclusive of the
    /// handle now being consumed — then decrement as the last step.
    fn finish(&mut self, h: Handle, observed: u64, evicted: bool)
        requires
            old(self).led.count >= 1,
            old(self).led.ext >= 1,
        ensures
            final(self).led.count == old(self).led.count - 1,
            final(self).led.ext == old(self).led.ext - 1,
            final(self).led.log@ == old(self).led.log@
                + seq![(Event::Dropping { observed, evicted })],
            final(self).lock == old(self).lock,
            final(self).occupied() == old(self).occupied(),
    {
        self.led.log.push(Event::Dropping { observed, evicted });
        self.led.count = self.led.count - 1;
        self.led.ext = self.led.ext - 1;
    }

    /// Releases an external handle, running the eviction protocol.
    ///
    /// The count is observed at entry, inclusive of the handle being
    /// released. If it is exactly two, this release is the second-to-last,
    /// and by the count invariant the one other share — if the slot is
    /// occupied — is the cache's. The protocol then acquires the lock, peeks
    /// the slot as an owned duplicate, consumes that duplicate immediately,
    /// evicts the occupied slot, and releases the lock on every path. The
    /// decrement for the released handle is the final step, and its
    /// `Dropping` event carries the count observed at entry together with
    /// whether an eviction was triggered.
    ///
    /// The lock acquisition inside requires the lock to be free, so the
    /// precondition excludes the one fatal input: a release that would
    /// observe a count of two while its own flow already holds the lock.
    /// Verification of this body is the no-self-deadlock argument: no step
    /// ever re-enters the held lock.
    ///
    /// A poisoned lock does not stop the protocol: the possibly inconsistent
    /// cache value is recovered and eviction proceeds.
    pub fn release(&mut self, h: Handle)
        requires
            old(self).wf(),
            old(self).led.ext >= 1,
            old(self).led.count == 2 ==> !old(self).lock.locked,
        ensures
            final(self).wf(),
            final(self).led.ext == old(self).led.ext - 1,
            final(self).lock.locked == old(self).lock.locked,
            final(self).lock.poisoned == old(self).lock.poisoned,
            // no premature eviction: while another external share remains
            // live, the slot is left as it was
            old(self).led.ext >= 2 ==> final(self).occupied() == old(self).occupied(),
            // eviction correctness: releasing the last external share
            // empties the slot and reclaims the resource, with no manual
            // eviction call
            old(self).led.ext == 1 && old(self).occupied()
                ==> !final(self).occupied() && final(self).led.count == 0,
            old(self).led.count != 2 ==> {
                &&& final(self).occupied() == old(self).occupied()
                &&& final(self).led.count == old(self).led.count - 1
                &&& final(self).led.log@ == old(self).led.log@
                    + seq![(Event::Dropping { observed: old(self).led.count, evicted: false })]
            },
            old(self).led.count == 2 && old(self).occupied() ==> {
                &&& !final(self).occupied()
                &&& final(self).led.count == 0
                &&& final(self).led.log@ == old(self).led.log@
                    + seq![
                        Event::Locking,
                        (Event::Cloning { observed: 2 }),
                        (Event::Dropping { observed: 3, evicted: false }),
                        (Event::Dropping { observed: 2, evicted: false }),
                        Event::Unlocking,
                        (Event::Dropping { observed: 2, evicted: true }),
                    ]
            },
            old(self).led.count == 2 && !old(self).occupied() ==> {
                &&& !final(self).occupied()
                &&& final(self).led.count == 1
                &&& final(self).led.log@ == old(self).led.log@
                    + seq![
                        Event::Locking,
                        Event::Unlocking,
                        (Event::Dropping { observed: 2, evicted: false }),
                    ]
            },
    {
        let observed: u64 = self.led.count;
        let mut evicted: bool = false;
        if observed == 2 {
            let _poisoned: bool = self.lock_cache();
            let peeked: Option<Handle> = self.peek();
            match peeked {
                Some(dup) => {
                    // Consume the peeked duplicate at once: its release
                    // observes a count of three and stays a plain decrement.
                    let dup_observed: u64 = self.led.count;
                    self.finish(dup, dup_observed, false);
                    // Clear the slot; the cache-owned share goes as a plain
                    // decrement observing a count of two.
                    self.evict();
                    evicted = true;
                }
                None => {}
            }
            self.unlock_cache();
        }
        self.finish(h, observed, evicted);
        proof {
            if old(self).led.count == 2 && old(self).occupied() {
                assert(self.led.log@ =~= old(self).led.log@
                    + seq![
                        Event::Locking,
                        (Event::Cloning { observed: 2 }),
                        (Event::Dropping { observed: 3, evicted: false }),
                        (Event::Dropping { observed: 2, evicted: false }),
                        Event::Unlocking,
                        (Event::Dropping { observed: 2, evicted: true }),
                    ]);
            }
            if old(self).led.count == 2 && !old(self).occupied() {
                assert(self.led.log@ =~= old(self).led.log@
                    + seq![
                        Event::Locking,
                        Event::Unlocking,
                        (Event::Dropping { observed: 2, evicted: false }),
                    ]);
            }
        }
    }

    /// Releases an external handle while keeping the peeked duplicate alive
    /// across the eviction step — the documented lifetime hazard, kept so
    /// that its observable effect can be pinned down and tested. It is not
    /// the protocol's required behavior; [`System::release`] is.
    ///
    /// Binding the peek result to a name that outlives the eviction changes
    /// what each release observes: the cache's own share now goes while the
    /// duplicate is still live, observing a count of three instead of two,
    /// and the duplicate's own deferred release later observes two — which
    /// re-runs the whole protocol, visible as a second acquire/release pair
    /// in the log. Deferred this far, the re-run finds the lock free; had
    /// the duplicate been consumed anywhere under the still-held lock, the
    /// re-entry would be the self-deadlock, and no such body verifies.
    pub fn release_holding_peek(&mut self, h: Handle)
        requires
            old(self).wf(),
            old(self).led.ext >= 1,
            old(self).led.count == 2 ==> !old(self).lock.locked,
        ensures
            final(self).wf(),
            final(self).led.ext == old(self).led.ext - 1,
            final(self).lock.locked == old(self).lock.locked,
            final(self).lock.poisoned == old(self).lock.poisoned,
            old(self).led.ext >= 2 ==> final(self).occupied() == old(self).occupied(),
            old(self).led.ext == 1 && old(self).occupied()
                ==> !final(self).occupied() && final(self).led.count == 0,
            old(self).led.count != 2 ==> {
                &&& final(self).occupied() == old(self).occupied()
                &&& final(self).led.count == old(self).led.count - 1
                &&& final(self).led.log@ == old(self).led.log@
                    + seq![(Event::Dropping { observed: old(self).led.count, evicted: false })]
            },
            old(self).led.count == 2 && old(self).occupied() ==> {
                &&& !final(self).occupied()
                &&& final(self).led.count == 0
                &&& final(self).led.log@ == old(self).led.log@
                    + seq![
                        Event::Locking,
                        (Event::Cloning { observed: 2 }),
                        (Event::Dropping { observed: 3, evicted: false }),
                        Event::Unlocking,
                        Event::Locking,
                        Event::Unlocking,
                        (Event::Dropping { observed: 2, evicted: false }),
                        (Event::Dropping { observed: 2, evicted: true }),
                    ]
            },
            old(self).led.count == 2 && !old(self).occupied() ==> {
                &&& !final(self).occupied()
                &&& final(self).led.count == 1
                &&& final(self).led.log@ == old(self).led.log@
                    + seq![
                        Event::Locking,
                        Event::Unlocking,
                        (Event::Dropping { observed: 2, evicted: false }),
                    ]
            },
    {
        let observed: u64 = self.led.count;
        if observed == 2 {
            let _poisoned: bool = self.lock_cache();
            let peeked: Option<Handle> = self.peek();
            match peeked {
                Some(dup) => {
                    // The duplicate is held across the eviction: the
                    // cache-owned share goes first, observing three.
                    self.evict();
                    self.unlock_cache();
                    // The deferred release of the duplicate observes two and
                    // re-runs the protocol against a now-empty slot.
                    self.release(dup);
                    self.finish(h, observed, true);
                }
                None => {
                    self.unlock_cache();
                    self.finish(h, observed, false);
                }
            }
        } else {
            self.finish(h, observed, false);
        }
        proof {
            if old(self).led.count == 2 && old(self).occupied() {
                assert(self.led.log@ =~= old(self).led.log@
                    + seq![
                        Event::Locking,
                        (Event::Cloning { observed: 2 }),
                        (Event::Dropping { observed: 3, evicted: false }),
                        Event::Unlocking,
                        Event::Locking,
                        Event::Unlocking,
                        (Event::Dropping { observed: 2, evicted: false }),
                        (Event::Dropping { observed: 2, evicted: true }),
                    ]);
            }
            if old(self).led.count == 2 && !old(self).occupied() {
                assert(self.led.log@ =~= old(self).led.log@
                    + seq![
                        Event::Locking,
                        Event::Unlocking,
                        (Event::Dropping { observed: 2, evicted: false }),
                    ]);
            }
        }
    }
}

} // verus!
