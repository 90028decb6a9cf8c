//! The share ledger: the underlying reference count of the one cached
//! resource, the number of live external handles, and the diagnostic log.
//!
//! The ledger makes reference-count arithmetic explicit, so that the eviction
//! protocol's decisions can be stated and proved over plain integers instead
//! of an opaque shared-ownership primitive.

use vstd::prelude::*;

verus! {

/// One entry of the diagnostic log.
///
/// The log records, in order, lock acquisitions, lock releases, duplication
/// events (with the count observed immediately before duplication), and
/// release events (with the count observed before the decrement, inclusive of
/// the handle being released, and whether this release triggered eviction).
#[derive(Clone, Copy, PartialEq, Eq, Structural, Debug)]
pub enum Event {
    /// The protecting lock was acquired.
    Locking,
    /// The protecting lock was released.
    Unlocking,
    /// A handle was duplicated; `observed` is the count seen just before.
    Cloning { observed: u64 },
    /// A share was released; `observed` is the count seen just before the
    /// decrement, and `evicted` says whether this release ran the eviction
    /// protocol (acquired the lock, peeked, and cleared an occupied slot).
    Dropping { observed: u64, evicted: bool },
}

/// An owned share of the underlying resource.
///
/// A `Handle` is a receipt for exactly one unit of the share count. It is
/// deliberately neither `Clone` nor `Copy`: duplication goes through
/// [`crate::system::System::duplicate`] and release through
/// [`crate::system::System::release`], which keep the ledger in step.
pub struct Handle {
    _priv: (),
}

impl Handle {
    /// Makes a new receipt. Only the library's own bookkeeping calls this;
    /// every constructor of a `Handle` also adjusts the ledger.
    pub(crate) fn fresh() -> (h: Handle) {
        Handle { _priv: () }
    }
}

/// The explicit state of the shared ownership count.
///
/// `count` is the total number of live shares of the resource; `ext` is the
/// number of those shares held outside the cache (external handles, including
/// duplicates handed out by peek); `log` is the diagnostic log.
///
/// The count invariant — the number of live handles referring to the count
/// equals the count's value — is stated at the system level, where the cache
/// slot's own share is visible: see [`crate::system::System::wf`].
pub struct Ledger {
    /// Total live shares of the underlying resource; `0` means reclaimed.
    pub count: u64,
    /// Live external shares (everything not held by the cache slot).
    pub ext: u64,
    /// The diagnostic log, oldest event first.
    pub log: Vec<Event>,
}

impl Ledger {
    /// A ledger for a not-yet-created resource: no shares, empty log.
    pub fn new() -> (r: Ledger)
        ensures
            r.count == 0,
            r.ext == 0,
            r.log@ == Seq::<Event>::empty(),
    {
        Ledger { count: 0, ext: 0, log: Vec::new() }
    }
}

} // verus!
