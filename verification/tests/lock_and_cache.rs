use evictcache::Cache;
use evictcache::Event;
use evictcache::Ledger;
use evictcache::MutexWrap;

#[test]
fn mutex_wrap_starts_unlocked() {
    let m: MutexWrap<u64> = MutexWrap::new(7);
    assert!(!m.locked);
    assert!(!m.poisoned);
    assert_eq!(m.value, 7);
}

#[test]
fn lock_and_unlock_are_logged() {
    let mut m: MutexWrap<u64> = MutexWrap::new(0);
    let mut led = Ledger::new();
    let poisoned = m.lock(&mut led);
    assert!(!poisoned);
    assert!(m.locked);
    m.unlock(&mut led);
    assert!(!m.locked);
    assert_eq!(led.log, vec![Event::Locking, Event::Unlocking]);
    assert_eq!(led.count, 0);
    assert_eq!(led.ext, 0);
}

#[test]
fn poisoned_lock_still_yields_access() {
    let mut m: MutexWrap<u64> = MutexWrap::new(42);
    let mut led = Ledger::new();
    let poisoned = m.lock(&mut led);
    assert!(!poisoned);
    // The holder terminates abnormally while holding the lock.
    m.poison(&mut led);
    assert!(!m.locked);
    assert!(m.poisoned);
    // The next acquirer is told about the poisoning and still gets through.
    let poisoned_again = m.lock(&mut led);
    assert!(poisoned_again);
    assert!(m.locked);
    assert_eq!(m.value, 42);
    m.unlock(&mut led);
    assert_eq!(
        led.log,
        vec![Event::Locking, Event::Unlocking, Event::Locking, Event::Unlocking]
    );
}

#[test]
fn cache_add_get_drop_round_trip() {
    let mut cache = Cache { resource: false };
    let mut led = Ledger { count: 1, ext: 1, log: Vec::new() };
    // Nothing to peek in an empty slot, and nothing changes.
    let empty = cache.get_resource(&mut led);
    assert!(empty.is_none());
    assert_eq!(led.count, 1);
    assert_eq!(led.log, vec![]);
    // Insert stores a duplicate of the caller's handle.
    let mut donor = evictcache::system::System::new();
    let h = donor.create_handle();
    cache.add_resource(&h, &mut led);
    assert!(cache.resource);
    assert_eq!(led.count, 2);
    assert_eq!(led.log, vec![Event::Cloning { observed: 1 }]);
    // Peek hands out an owned duplicate.
    let peeked = cache.get_resource(&mut led);
    assert!(peeked.is_some());
    assert_eq!(led.count, 3);
    assert_eq!(led.ext, 2);
    // Clearing the slot releases the cache-owned share.
    cache.drop_resource(&mut led);
    assert!(!cache.resource);
    assert_eq!(led.count, 2);
    assert_eq!(
        led.log,
        vec![
            Event::Cloning { observed: 1 },
            Event::Cloning { observed: 2 },
            Event::Dropping { observed: 3, evicted: false },
        ]
    );
}

#[test]
fn cache_nothing_keeps_the_slot() {
    let mut cache = Cache { resource: true };
    cache.nothing();
    assert!(cache.resource);
    let mut empty = Cache { resource: false };
    empty.nothing();
    assert!(!empty.resource);
}
