//! A busy-waiting lock over one boolean flag.
use std::sync::atomic::{AtomicBool, Ordering};
use vstd::prelude::*;
use crate::atomics::{spin_hint, store_bool_release};

verus! {

/// The spin lock as a state machine: the flag and the number of live guards.
pub ghost struct SpinModel {
    pub held: bool,
    pub guards: nat,
}

impl SpinModel {
    /// The flag is set exactly while the one guard is alive.
    pub open spec fn inv(self) -> bool {
        self.guards <= 1 && (self.held <==> self.guards == 1)
    }

    /// `swap(true)`; the flag says whether it took the lock.
    pub open spec fn try_lock(self) -> (SpinModel, bool) {
        (
            SpinModel {
                held: true,
                guards: if self.held { self.guards } else { self.guards + 1 },
            },
            !self.held,
        )
    }

    /// `store(false)` by the holder of the guard.
    pub open spec fn unlock(self) -> SpinModel {
        SpinModel { held: false, guards: (self.guards - 1) as nat }
    }
}

/// Mutual exclusion: the swap grants a guard only when none is alive, and both
/// transitions keep the invariant.
pub proof fn lemma_spin_exclusion(m: SpinModel)
    requires
        m.inv(),
    ensures
        m.guards <= 1,
        m.try_lock().0.inv(),
        m.try_lock().1 <==> m.guards == 0,
        m.guards == 1 ==> m.unlock().inv() && m.unlock().guards == 0,
{
}

/// The flag a lock attempt swaps in, whatever it replaces: the model's
/// `try_lock`.
pub fn locked_flag() -> (r: bool)
    ensures
        forall|m: SpinModel| #[trigger] m.try_lock().0.held == r,
{
    true
}

/// The flag an unlock stores: the model's `unlock`.
pub fn unlocked_flag() -> (r: bool)
    ensures
        r == false,
        forall|m: SpinModel| #[trigger] m.unlock().held == r,
    opens_invariants none
    no_unwind
{
    false
}

/// A busy-waiting lock around `value`. It suits only very short critical
/// sections and makes no promise of fairness.
pub struct SpinLock<T> {
    lock: AtomicBool,
    data: T,
}

/// Proof that the calling thread holds a `SpinLock`; dropping it unlocks.
pub struct Guard<'a, T> {
    lock: &'a SpinLock<T>,
}

impl<T> SpinLock<T> {
    /// The protected value.
    pub closed spec fn value(&self) -> T {
        self.data
    }

    /// An unlocked lock around `value`.
    pub fn new(value: T) -> (r: Self)
        ensures
            r.value() == value,
    {
        SpinLock { lock: AtomicBool::new(false), data: value }
    }

    /// One attempt to take the lock: swaps the flag to set and succeeds if it
    /// was clear. Returns the flag the swap found, and the guard when it took
    /// the lock. On failure it gives the processor a spin-wait hint, so that a
    /// caller that repeats the attempt spins politely.
    pub fn try_lock(&self) -> (r: (bool, Option<Guard<'_, T>>))
        ensures
            r.1 matches Some(g) ==> g.spin_lock() == self,
            r.1 is Some <==> (SpinModel { held: r.0, guards: 0 }).try_lock().1,
    {
        let was_held = self.lock.swap(locked_flag(), Ordering::Acquire);
        if was_held {
            spin_hint();
            (was_held, None)
        } else {
            (was_held, Some(Guard { lock: self }))
        }
    }

    /// Clears the flag and returns the flag stored. A guard does this when it
    /// is dropped; a direct call is for a caller that gave up its guard by
    /// other means.
    pub fn unlock(&self) -> (r: bool)
        ensures
            r == (SpinModel { held: true, guards: 1 }).unlock().held,
        opens_invariants none
        no_unwind
    {
        let flag = unlocked_flag();
        store_bool_release(&self.lock, flag);
        flag
    }
}

impl<'a, T> Guard<'a, T> {
    /// The lock this guard holds.
    pub closed spec fn spin_lock(&self) -> &'a SpinLock<T> {
        self.lock
    }

    /// Shared access to the protected value.
    pub fn value(&self) -> (r: &T)
        ensures
            *r == self.spin_lock().value(),
    {
        &self.lock.data
    }
}

impl<'a, T> Drop for Guard<'a, T> {
    fn drop(&mut self)
        opens_invariants none
        no_unwind
    {
        self.lock.unlock();
    }
}

} // verus!
