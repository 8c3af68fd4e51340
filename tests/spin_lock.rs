use locks::SpinLock;
use std::sync::atomic::{AtomicU32, Ordering};

#[test]
fn spin_lock_fresh_lock_is_free() {
    let lock = SpinLock::new(7u32);
    let (was_held, guard) = lock.try_lock();
    assert!(!was_held);
    assert_eq!(*guard.unwrap().value(), 7);
}

#[test]
fn spin_lock_excludes_second_guard() {
    let lock = SpinLock::new(0u32);
    let first = lock.try_lock().1.expect("free lock");
    let (was_held, second) = lock.try_lock();
    assert!(was_held);
    assert!(second.is_none());
    assert!(lock.try_lock().1.is_none());
    drop(first);
    assert!(lock.try_lock().1.is_some());
}

#[test]
fn spin_lock_unlock_clears_the_flag() {
    let lock = SpinLock::new(());
    let guard = lock.try_lock().1.expect("free lock");
    std::mem::forget(guard);
    assert!(lock.try_lock().1.is_none());
    assert!(!lock.unlock());
    assert!(lock.try_lock().1.is_some());
}

#[test]
fn spin_lock_counts_every_increment() {
    let lock = SpinLock::new(AtomicU32::new(0));
    for _ in 0..250 {
        let guard = lock.try_lock().1.expect("uncontended");
        let v = guard.value().load(Ordering::Relaxed);
        guard.value().store(v + 1, Ordering::Relaxed);
    }
    assert_eq!(lock.try_lock().1.unwrap().value().load(Ordering::Relaxed), 250);
}
