//! The single-slot cache: holds at most one share of the resource.
//!
//! The cache performs no locking of its own; every operation here assumes the
//! caller holds the protecting lock. That precondition is enforced where the
//! slot and the lock meet, in [`crate::system::System`].
//!
//! The slot's share is a cache-owned share: when it is released — by eviction
//! or by an insert replacing a prior occupant — the release is a plain
//! decrement of the count. The eviction trigger of the protocol applies only
//! to external handles; the count-equals-two inference ("the one other owner
//! must be the cache") is meaningless for the cache's own share.

use vstd::prelude::*;

use crate::ledger::Event;
use crate::ledger::Handle;
use crate::ledger::Ledger;

verus! {

/// The single slot: either empty or holding exactly one share.
///
/// The slot's state machine is `Empty -> Occupied` (insert),
/// `Occupied -> Empty` (evict), and `Occupied -> Occupied` (insert replacing
/// the occupant); there are no other transitions.
pub struct Cache {
    /// Whether the slot currently holds a share of the resource.
    pub resource: bool,
}

impl Cache {
    /// Does nothing; here to exercise when a cache value is consumed.
    pub fn nothing(&mut self)
        ensures
            final(self).resource == old(self).resource,
    {
    }

    /// Stores a duplicate of the given handle in the slot.
    ///
    /// The handle is duplicated first (one more share, `Cloning` logged with
    /// the count observed before the duplication); if the slot already held a
    /// share, that prior occupant is then released as a plain cache-owned
    /// decrement (`Dropping` logged, no eviction).
    pub fn add_resource(&mut self, res: &Handle, led: &mut Ledger)
        requires
            old(led).count < u64::MAX,
        ensures
            final(self).resource,
            final(led).ext == old(led).ext,
            old(self).resource ==> {
                &&& final(led).count == old(led).count
                &&& final(led).log@ == old(led).log@
                    + seq![
                        (Event::Cloning { observed: old(led).count }),
                        (Event::Dropping { observed: (old(led).count + 1) as u64, evicted: false }),
                    ]
            },
            !old(self).resource ==> {
                &&& final(led).count == old(led).count + 1
                &&& final(led).log@ == old(led).log@
                    + seq![(Event::Cloning { observed: old(led).count })]
            },
    {
        let ghost log0 = led.log@;
        led.log.push(Event::Cloning { observed: led.count });
        led.count = led.count + 1;
        if self.resource {
            // Release the prior occupant: a cache-owned share, plain decrement.
            led.log.push(Event::Dropping { observed: led.count, evicted: false });
            led.count = led.count - 1;
            assert(led.log@ =~= log0 + seq![
                (Event::Cloning { observed: old(led).count }),
                (Event::Dropping { observed: (old(led).count + 1) as u64, evicted: false }),
            ]);
        } else {
            assert(led.log@ =~= log0 + seq![(Event::Cloning { observed: old(led).count })]);
        }
        self.resource = true;
    }

    /// Peeks the slot: returns an owned duplicate of the stored share, or
    /// `None` if the slot is empty.
    ///
    /// The duplicate is a fresh external share — the count and the external
    /// tally both grow by one — never a borrowed view into the slot. The
    /// caller owns its release; holding it past the eviction step changes
    /// what a release elsewhere observes (see
    /// [`crate::system::System::release_holding_peek`]).
    pub fn get_resource(&self, led: &mut Ledger) -> (r: Option<Handle>)
        requires
            old(led).count < u64::MAX,
            old(led).ext < u64::MAX,
        ensures
            r.is_some() == self.resource,
            self.resource ==> {
                &&& final(led).count == old(led).count + 1
                &&& final(led).ext == old(led).ext + 1
                &&& final(led).log@ == old(led).log@
                    + seq![(Event::Cloning { observed: old(led).count })]
            },
            !self.resource ==> {
                &&& final(led).count == old(led).count
                &&& final(led).ext == old(led).ext
                &&& final(led).log@ == old(led).log@
            },
    {
        if self.resource {
            led.log.push(Event::Cloning { observed: led.count });
            led.count = led.count + 1;
            led.ext = led.ext + 1;
            Some(Handle::fresh())
        } else {
            None
        }
    }

    /// Clears the slot, releasing the cache-owned share it held.
    ///
    /// On an already-empty slot this is a no-op: nothing is logged, nothing
    /// is decremented, and nothing panics.
    pub fn drop_resource(&mut self, led: &mut Ledger)
        requires
            old(self).resource ==> old(led).count >= 1,
        ensures
            !final(self).resource,
            final(led).ext == old(led).ext,
            old(self).resource ==> {
                &&& final(led).count == old(led).count - 1
                &&& final(led).log@ == old(led).log@
                    + seq![(Event::Dropping { observed: old(led).count, evicted: false })]
            },
            !old(self).resource ==> {
                &&& final(led).count == old(led).count
                &&& final(led).log@ == old(led).log@
            },
    {
        if self.resource {
            led.log.push(Event::Dropping { observed: led.count, evicted: false });
            led.count = led.count - 1;
            self.resource = false;
        }
    }
}

} // verus!
