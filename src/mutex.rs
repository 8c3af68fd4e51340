//! A blocking mutual-exclusion lock over a three-state word, parking contended
//! threads on the word itself.
use std::sync::atomic::{AtomicU32, Ordering};
use vstd::prelude::*;
use crate::atomics::{cas_acquire, swap_release};
use crate::park::{wait, wake_one};

verus! {

/// No thread holds the lock.
pub const UNLOCKED: u32 = 0;

/// A thread holds the lock and no other thread has announced that it waits.
pub const LOCKED: u32 = 1;

/// A thread holds the lock and others may be parked on the word.
pub const LOCKED_WITH_WAITERS: u32 = 2;

/// How many compare-and-swap attempts `lock_step` makes before it falls back to
/// parking, for an attempt made with `LockAttempt::new`.
pub const SPIN_LIMIT: u32 = 100;

/// The mutex as a state machine: the state word and the number of live guards.
/// Each method is one atomic instruction on the word.
pub ghost struct MutexModel {
    pub word: u32,
    pub guards: nat,
}

impl MutexModel {
    /// The word says whether a guard exists; there is at most one.
    pub open spec fn inv(self) -> bool {
        &&& self.word <= LOCKED_WITH_WAITERS
        &&& self.guards <= 1
        &&& (self.word == UNLOCKED <==> self.guards == 0)
    }

    /// `compare_exchange(UNLOCKED, LOCKED)`; the flag says whether it took the lock.
    pub open spec fn try_lock(self) -> (MutexModel, bool) {
        if self.word == UNLOCKED {
            (MutexModel { word: LOCKED, guards: self.guards + 1 }, true)
        } else {
            (self, false)
        }
    }

    /// `swap(LOCKED_WITH_WAITERS)`; the flag says whether it took the lock.
    pub open spec fn lock_contended(self) -> (MutexModel, bool) {
        let took = self.word == UNLOCKED;
        (
            MutexModel {
                word: LOCKED_WITH_WAITERS,
                guards: if took { self.guards + 1 } else { self.guards },
            },
            took,
        )
    }

    /// `swap(UNLOCKED)` by the holder of the guard; the flag says whether a
    /// parked thread must be woken.
    pub open spec fn unlock(self) -> (MutexModel, bool) {
        (
            MutexModel { word: UNLOCKED, guards: (self.guards - 1) as nat },
            self.word == LOCKED_WITH_WAITERS,
        )
    }
}

/// Mutual exclusion: every transition keeps the invariant, and a lock
/// transition grants a guard only when no other guard is alive.
pub proof fn lemma_mutex_exclusion(m: MutexModel)
    requires
        m.inv(),
    ensures
        m.guards <= 1,
        m.try_lock().0.inv(),
        m.try_lock().1 ==> m.guards == 0 && m.try_lock().0.guards == 1,
        m.lock_contended().0.inv(),
        m.lock_contended().1 ==> m.guards == 0 && m.lock_contended().0.guards == 1,
        m.guards == 1 ==> m.unlock().0.inv() && m.unlock().0.guards == 0,
{
}

/// No missed wakeup: a thread parks only while the word reads
/// `LOCKED_WITH_WAITERS`; no lock attempt moves the word away from that value,
/// so it leaves it only through an unlock, and that unlock wakes a parked thread.
pub proof fn lemma_mutex_no_missed_wakeup(m: MutexModel)
    requires
        m.inv(),
        m.word == LOCKED_WITH_WAITERS,
    ensures
        !m.try_lock().1,
        m.try_lock().0.word == LOCKED_WITH_WAITERS,
        !m.lock_contended().1,
        m.lock_contended().0.word == LOCKED_WITH_WAITERS,
        m.unlock().1,
{
}

/// The word the fast path writes over `UNLOCKED`: the model's `try_lock`.
pub fn locked_word() -> (r: u32)
    ensures
        r == (MutexModel { word: UNLOCKED, guards: 0 }).try_lock().0.word,
{
    LOCKED
}

/// The word a contended attempt swaps in, whatever it replaces: the model's
/// `lock_contended`.
pub fn contended_word() -> (r: u32)
    ensures
        forall|m: MutexModel| #[trigger] m.lock_contended().0.word == r,
{
    LOCKED_WITH_WAITERS
}

/// Whether a contended swap that replaced `prev` took the lock.
pub fn contended_took_lock(prev: u32) -> (r: bool)
    ensures
        r == (MutexModel { word: prev, guards: 0 }).lock_contended().1,
{
    prev == UNLOCKED
}

/// The word an unlock swaps in, whatever it replaces: the model's `unlock`.
pub fn unlocked_word() -> (r: u32)
    ensures
        forall|m: MutexModel| #[trigger] m.unlock().0.word == r,
    opens_invariants none
    no_unwind
{
    UNLOCKED
}

/// Whether the unlock that replaced `prev` must wake a parked thread.
pub fn unlock_must_wake(prev: u32) -> (r: bool)
    ensures
        r == (MutexModel { word: prev, guards: 1 }).unlock().1,
    opens_invariants none
    no_unwind
{
    prev == LOCKED_WITH_WAITERS
}

/// The progress of one thread's attempt to take a `Mutex`.
pub struct LockAttempt {
    spins: u32,
    limit: u32,
    observed: u32,
}

impl LockAttempt {
    /// How many compare-and-swap attempts have failed so far.
    pub closed spec fn spins(&self) -> nat {
        self.spins as nat
    }

    /// How many compare-and-swap attempts to make before parking.
    pub closed spec fn limit(&self) -> nat {
        self.limit as nat
    }

    /// The word that the last step's atomic instruction found.
    pub closed spec fn observed(&self) -> u32 {
        self.observed
    }

    /// An attempt that has not tried anything yet and spins `SPIN_LIMIT`
    /// times before it parks.
    pub fn new() -> (r: Self)
        ensures
            r.spins() == 0,
            r.limit() == SPIN_LIMIT,
    {
        LockAttempt { spins: 0, limit: SPIN_LIMIT, observed: LOCKED }
    }

    /// An attempt that has not tried anything yet and spins `limit` times
    /// before it parks; 0 parks from the first step.
    pub fn with_spin_limit(limit: u32) -> (r: Self)
        ensures
            r.spins() == 0,
            r.limit() == limit,
    {
        LockAttempt { spins: 0, limit, observed: LOCKED }
    }

    /// Whether the attempt has spent its compare-and-swap tries and now parks.
    pub fn is_parking(&self) -> (r: bool)
        ensures
            r == (self.spins() >= self.limit()),
    {
        self.spins >= self.limit
    }

    /// The word that the last step found, for callers outside the library.
    pub fn last_seen(&self) -> (r: u32)
        ensures
            r == self.observed(),
    {
        self.observed
    }
}

/// A mutual-exclusion lock around `value`. Guards hand out shared access to the
/// value; a value with interior mutability becomes exclusively mutable through it.
pub struct Mutex<T> {
    state: AtomicU32,
    value: T,
}

/// Proof that the calling thread holds a `Mutex`; dropping it unlocks.
pub struct MutexGuard<'a, T> {
    lock: &'a Mutex<T>,
}

impl<T> Mutex<T> {
    /// The protected value.
    pub closed spec fn value(&self) -> T {
        self.value
    }

    /// An unlocked mutex around `value`.
    pub fn new(value: T) -> (r: Self)
        ensures
            r.value() == value,
    {
        Mutex { state: AtomicU32::new(UNLOCKED), value }
    }

    /// One step of taking the lock. The first steps, as many as the attempt's limit, each try a
    /// compare-and-swap from `UNLOCKED` to `LOCKED` (the first is the fast path).
    /// After that each step swaps in `LOCKED_WITH_WAITERS`, takes the lock if the
    /// word was `UNLOCKED`, and otherwise parks until an unlock wakes it.
    /// Returns the guard once the lock is taken; the caller repeats until then.
    pub fn lock_step(&self, attempt: &mut LockAttempt) -> (r: Option<MutexGuard<'_, T>>)
        ensures
            r matches Some(g) ==> g.mutex() == self,
            r is Some <==> final(attempt).observed() == UNLOCKED,
            old(attempt).spins() < old(attempt).limit() ==> (r is Some <==> (MutexModel {
                word: final(attempt).observed(),
                guards: 0,
            }).try_lock().1),
            old(attempt).spins() >= old(attempt).limit() ==> (r is Some <==> (MutexModel {
                word: final(attempt).observed(),
                guards: 0,
            }).lock_contended().1),
            old(attempt).spins() < old(attempt).limit() && r is None ==> final(attempt).spins()
                == old(attempt).spins() + 1,
            old(attempt).spins() >= old(attempt).limit() ==> final(attempt).spins() == old(
                attempt,
            ).spins(),
            r is Some ==> final(attempt).spins() == old(attempt).spins(),
            final(attempt).limit() == old(attempt).limit(),
    {
        if attempt.spins < attempt.limit {
            match cas_acquire(&self.state, UNLOCKED, locked_word()) {
                Ok(prev) => {
                    attempt.observed = prev;
                    Some(MutexGuard { lock: self })
                },
                Err(prev) => {
                    attempt.observed = prev;
                    attempt.spins = attempt.spins + 1;
                    None
                },
            }
        } else {
            let contended = contended_word();
            let prev = self.state.swap(contended, Ordering::Acquire);
            attempt.observed = prev;
            if contended_took_lock(prev) {
                Some(MutexGuard { lock: self })
            } else {
                wait(&self.state, contended);
                None
            }
        }
    }

    /// Releases the lock: the word goes back to `UNLOCKED`, and if it said that
    /// threads may be parked, one of them is woken. Returns the word the swap
    /// replaced and whether it woke a thread.
    pub fn unlock(&self) -> (r: (u32, bool))
        ensures
            r.1 == (MutexModel { word: r.0, guards: 1 }).unlock().1,
        opens_invariants none
        no_unwind
    {
        let prev = swap_release(&self.state, unlocked_word());
        let wake = unlock_must_wake(prev);
        if wake {
            wake_one(&self.state);
        }
        (prev, wake)
    }
}

impl<'a, T> MutexGuard<'a, T> {
    /// The mutex this guard holds.
    pub closed spec fn mutex(&self) -> &'a Mutex<T> {
        self.lock
    }

    /// Shared access to the protected value.
    pub fn value(&self) -> (r: &T)
        ensures
            *r == self.mutex().value(),
    {
        &self.lock.value
    }
}

impl<'a, T> Drop for MutexGuard<'a, T> {
    fn drop(&mut self)
        opens_invariants none
        no_unwind
    {
        self.lock.unlock();
    }
}

} // verus!
