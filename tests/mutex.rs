use locks::mutex::{LOCKED, LOCKED_WITH_WAITERS, SPIN_LIMIT, UNLOCKED};
use locks::{LockAttempt, Mutex};
use std::sync::atomic::{AtomicU32, Ordering};

fn lock(m: &Mutex<AtomicU32>) -> locks::MutexGuard<'_, AtomicU32> {
    let mut attempt = LockAttempt::new();
    loop {
        if let Some(g) = m.lock_step(&mut attempt) {
            return g;
        }
    }
}

#[test]
fn mutex_state_constants() {
    assert_eq!((UNLOCKED, LOCKED, LOCKED_WITH_WAITERS), (0, 1, 2));
}

#[test]
fn mutex_fast_path_takes_a_free_lock() {
    let m = Mutex::new(5u32);
    let mut attempt = LockAttempt::new();
    let g = m.lock_step(&mut attempt).expect("free lock");
    assert_eq!(*g.value(), 5);
    assert_eq!(attempt.last_seen(), UNLOCKED);
    assert!(!attempt.is_parking());
}

#[test]
fn mutex_spins_before_parking() {
    let m = Mutex::new(());
    let held = m.lock_step(&mut LockAttempt::new()).expect("free lock");
    let mut attempt = LockAttempt::new();
    for _ in 0..SPIN_LIMIT {
        assert!(!attempt.is_parking());
        assert!(m.lock_step(&mut attempt).is_none());
        assert_eq!(attempt.last_seen(), LOCKED);
    }
    assert!(attempt.is_parking());
    drop(held);
    // The word is free again: the contended path swaps and takes it at once.
    assert!(m.lock_step(&mut attempt).is_some());
    assert_eq!(attempt.last_seen(), UNLOCKED);
}

#[test]
fn mutex_unlock_releases() {
    let m = Mutex::new(());
    let g = m.lock_step(&mut LockAttempt::new()).expect("free lock");
    std::mem::forget(g);
    assert!(m.lock_step(&mut LockAttempt::new()).is_none());
    assert_eq!(m.unlock(), (LOCKED, false));
    assert!(m.lock_step(&mut LockAttempt::new()).is_some());
}

#[test]
fn mutex_contended_lock_makes_unlock_wake() {
    let m = Mutex::new(());
    let mut attempt = LockAttempt::with_spin_limit(0);
    assert!(attempt.is_parking());
    let g = m.lock_step(&mut attempt).expect("free lock");
    assert_eq!(attempt.last_seen(), UNLOCKED);
    std::mem::forget(g);
    // The contended path left LOCKED_WITH_WAITERS, so the unlock wakes.
    assert_eq!(m.unlock(), (LOCKED_WITH_WAITERS, true));
    assert_eq!(m.unlock(), (UNLOCKED, false));
}

#[test]
fn mutex_spin_limit_is_configurable() {
    let m = Mutex::new(());
    let held = m.lock_step(&mut LockAttempt::new()).expect("free lock");
    let mut attempt = LockAttempt::with_spin_limit(3);
    for _ in 0..3 {
        assert!(!attempt.is_parking());
        assert!(m.lock_step(&mut attempt).is_none());
    }
    assert!(attempt.is_parking());
    drop(held);
}

#[test]
fn mutex_counts_every_increment() {
    let m = Mutex::new(AtomicU32::new(0));
    for _ in 0..100000 {
        let g = lock(&m);
        let v = g.value().load(Ordering::Relaxed);
        g.value().store(v + 1, Ordering::Relaxed);
    }
    assert_eq!(100000, lock(&m).value().load(Ordering::Relaxed));
}
