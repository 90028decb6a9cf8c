//! A single-slot, self-evicting resource cache.
//!
//! The library models a shared store that holds a reference-counted handle to
//! a resource and automatically drops its own share when the last external
//! owner releases theirs, without ever re-entering the non-reentrant lock that
//! protects the store.
//!
//! The share count, the lock flag, and the diagnostic log are explicit state,
//! so every step of the eviction protocol carries a machine-checked contract.
//! Tests and applications inject a [`system::System`] value instead of relying
//! on ambient global access.

pub mod cache;
pub mod ledger;
pub mod lock;
pub mod system;

pub use cache::Cache;
pub use ledger::Event;
pub use ledger::Handle;
pub use ledger::Ledger;
pub use lock::MutexWrap;
pub use system::System;
