//! A reader/writer lock whose state word counts readers and marks a waiting
//! writer, with a separate counter on which writers park.
use std::sync::atomic::{AtomicU32, Ordering};
use vstd::prelude::*;
use crate::atomics::{cas_acquire, fetch_add_release, fetch_sub_acq_rel, store_release};
use crate::park::{wait, wake_all, wake_one};

verus! {

/// The state word of a lock that a writer holds. Below it, `word / 2` is the
/// number of readers and an odd word says that a writer waits.
pub const WRITE_LOCKED: u32 = 4294967295;

/// The lock as a state machine: the state word, the number of live read
/// guards and whether a write guard is alive. Each method is one atomic
/// instruction on the word.
pub ghost struct RwModel {
    pub word: u32,
    pub readers: nat,
    pub writer: bool,
}

impl RwModel {
    /// The word encodes the live guards exactly.
    pub open spec fn inv(self) -> bool {
        if self.writer {
            self.word == WRITE_LOCKED && self.readers == 0
        } else {
            self.word != WRITE_LOCKED && self.readers == self.word / 2
        }
    }

    /// Whether a writer has marked itself waiting (or holds the lock): readers
    /// are no longer admitted.
    pub open spec fn writer_pending(self) -> bool {
        self.word % 2 == 1
    }

    /// `compare_exchange(s, s + 2)`, made by a reader that saw the even word `s`.
    pub open spec fn read_acquire(self, s: u32) -> (RwModel, bool) {
        if self.word == s {
            (RwModel { word: (s + 2) as u32, readers: self.readers + 1, ..self }, true)
        } else {
            (self, false)
        }
    }

    /// `compare_exchange(s, s + 1)`, made by a writer that saw the even word `s`
    /// with readers in it.
    pub open spec fn mark_writer_waiting(self, s: u32) -> RwModel {
        if self.word == s {
            RwModel { word: (s + 1) as u32, ..self }
        } else {
            self
        }
    }

    /// `compare_exchange(s, WRITE_LOCKED)`, made by a writer that saw a word `s`
    /// without readers.
    pub open spec fn write_acquire(self, s: u32) -> (RwModel, bool) {
        if self.word == s {
            (RwModel { word: WRITE_LOCKED, writer: true, ..self }, true)
        } else {
            (self, false)
        }
    }

    /// `fetch_sub(2)` by the holder of a read guard; the flag says whether a
    /// waiting writer must be woken.
    pub open spec fn read_release(self) -> (RwModel, bool) {
        (
            RwModel { word: (self.word - 2) as u32, readers: (self.readers - 1) as nat, ..self },
            self.word == 3,
        )
    }

    /// `store(0)` by the holder of the write guard.
    pub open spec fn write_release(self) -> RwModel {
        RwModel { word: 0, readers: 0, writer: false }
    }
}

/// Whether a reader that saw the word `s` may try to enter: the word is even (no
/// writer holds or waits) and there is room for one more reader.
pub open spec fn may_read(s: u32) -> bool {
    s % 2 == 0 && s + 2 < WRITE_LOCKED
}

/// Whether a writer that saw the word `s` should mark itself waiting: readers
/// are in and the mark still leaves the word below `WRITE_LOCKED`.
pub open spec fn may_mark(s: u32) -> bool {
    s % 2 == 0 && 2 <= s && s + 1 < WRITE_LOCKED
}

/// Reader/writer exclusivity: a write guard never coexists with a read guard,
/// and every transition, made as the lock makes it, keeps the invariant.
pub proof fn lemma_rw_exclusion(m: RwModel, s: u32)
    requires
        m.inv(),
    ensures
        !(m.writer && m.readers > 0),
        may_read(s) ==> m.read_acquire(s).0.inv(),
        may_read(s) && m.read_acquire(s).1 ==> !m.writer && m.read_acquire(s).0.readers
            == m.readers + 1,
        may_mark(s) ==> m.mark_writer_waiting(s).inv(),
        may_mark(s) ==> m.mark_writer_waiting(s).readers == m.readers,
        s <= 1 ==> m.write_acquire(s).0.inv(),
        s <= 1 && m.write_acquire(s).1 ==> !m.writer && m.readers == 0,
        m.readers > 0 ==> m.read_release().0.inv(),
        m.writer ==> m.write_release().inv(),
        m.writer ==> may_read(m.write_release().word) && m.write_release().write_acquire(0).1,
{
}

/// Writer priority: once a writer is marked waiting, no reader is admitted,
/// departing readers keep the mark, and the mark goes only when a writer
/// takes the lock, which it can do as soon as the last reader has left.
pub proof fn lemma_writer_not_starved(m: RwModel, s: u32)
    requires
        m.inv(),
        m.writer_pending(),
        !m.writer,
    ensures
        !may_read(m.word),
        may_read(s) ==> !m.read_acquire(s).1 && m.read_acquire(s).0 == m,
        may_mark(s) ==> m.mark_writer_waiting(s) == m,
        m.readers > 0 ==> m.read_release().0.writer_pending(),
        m.readers > 0 ==> m.read_release().0.readers < m.readers,
        m.readers == 0 ==> m.word == 1 && m.write_acquire(1).1,
{
}

/// No missed wakeup for a writer: the reader that leaves last while a writer
/// waits reports that the writer must be woken, and leaves a word from which
/// the writer takes the lock.
pub proof fn lemma_last_reader_wakes_writer(m: RwModel)
    requires
        m.inv(),
        m.writer_pending(),
        !m.writer,
        m.readers == 1,
    ensures
        m.read_release().1,
        m.read_release().0.word == 1,
        m.read_release().0.write_acquire(1).1,
{
}

/// Whether a reader that saw the word `s` may try to enter.
pub fn reader_may_enter(s: u32) -> (r: bool)
    ensures
        r == may_read(s),
{
    s % 2 == 0 && s < WRITE_LOCKED - 2
}

/// The word a reader writes over the word `s` it saw: the model's
/// `read_acquire`.
pub fn read_target(s: u32) -> (r: u32)
    requires
        may_read(s),
    ensures
        r == (RwModel { word: s, readers: (s / 2) as nat, writer: false }).read_acquire(s).0.word,
{
    s + 2
}

/// Whether a writer that saw the word `s` should mark itself waiting.
pub fn writer_should_mark(s: u32) -> (r: bool)
    ensures
        r == may_mark(s),
{
    s % 2 == 0 && 2 <= s && s < WRITE_LOCKED - 1
}

/// The word a writer writes over the word `s` it saw to mark itself waiting:
/// the model's `mark_writer_waiting`.
pub fn mark_target(s: u32) -> (r: u32)
    requires
        may_mark(s),
    ensures
        r == (RwModel { word: s, readers: (s / 2) as nat, writer: false }).mark_writer_waiting(
            s,
        ).word,
{
    s + 1
}

/// The word a writer writes when it takes the lock: the model's
/// `write_acquire`, whatever word it replaces.
pub fn write_target() -> (r: u32)
    ensures
        forall|m: RwModel, s: u32| m.word == s ==> #[trigger] m.write_acquire(s).0.word == r,
{
    WRITE_LOCKED
}

/// Whether a writer that found the word `w` after loading the beacon must
/// park: a reader or a writer is still in.
pub fn writer_must_park(w: u32) -> (r: bool)
    ensures
        r == !(w <= 1),
{
    w >= 2
}

/// Whether the reader that left a word `prev` must wake a waiting writer.
pub fn read_release_wakes(prev: u32) -> (r: bool)
    ensures
        r == (RwModel { word: prev, readers: (prev / 2) as nat, writer: false }).read_release().1,
    opens_invariants none
    no_unwind
{
    prev == 3
}

/// The progress of one thread's attempt to take a `RwLock`: the state word as
/// it last saw it.
pub struct RwAttempt {
    observed: u32,
}

impl RwAttempt {
    /// The state word as the attempt last saw it.
    pub closed spec fn observed(&self) -> u32 {
        self.observed
    }

    /// The observed word, for callers outside the library.
    pub fn last_seen(&self) -> (r: u32)
        ensures
            r == self.observed(),
    {
        self.observed
    }
}

/// A reader/writer lock around `value`.
pub struct RwLock<T> {
    state: AtomicU32,
    value: T,
    writer_beacon: AtomicU32,
}

/// Proof that the calling thread reads under a `RwLock`; dropping it leaves.
pub struct ReadGuard<'a, T> {
    lock: &'a RwLock<T>,
}

/// Proof that the calling thread holds a `RwLock` alone; dropping it releases.
pub struct WriteGuard<'a, T> {
    lock: &'a RwLock<T>,
}

impl<T> RwLock<T> {
    /// The protected value.
    pub closed spec fn value(&self) -> T {
        self.value
    }

    /// A free lock around `value`.
    pub fn new(value: T) -> (r: Self)
        ensures
            r.value() == value,
    {
        RwLock { state: AtomicU32::new(0), value, writer_beacon: AtomicU32::new(0) }
    }

    /// Starts an attempt to read or write by loading the state word. Which word
    /// it finds depends on the other threads, so nothing is promised of it.
    pub fn begin(&self) -> RwAttempt {
        RwAttempt { observed: self.state.load(Ordering::Acquire) }
    }

    /// One step of taking a read guard. If the observed word admits a reader,
    /// tries to add one with a compare-and-swap, recording the word found when
    /// it fails; otherwise (a writer holds or waits) parks on the word while it
    /// still holds the observed value, then loads it again. Returns the guard
    /// once it is taken; the caller repeats until then. A full reader count is
    /// the caller's to refuse before the step.
    pub fn read_step(&self, attempt: &mut RwAttempt) -> (r: Option<ReadGuard<'_, T>>)
        requires
            old(attempt).observed() % 2 == 1 || old(attempt).observed() + 2 < WRITE_LOCKED,
        ensures
            r matches Some(g) ==> g.rwlock() == self,
            r is Some ==> may_read(old(attempt).observed()) && final(attempt).observed() == old(
                attempt,
            ).observed(),
            may_read(old(attempt).observed()) && r is None ==> final(attempt).observed() != old(
                attempt,
            ).observed(),
            !may_read(old(attempt).observed()) ==> r is None,
    {
        let s = attempt.observed;
        if reader_may_enter(s) {
            match cas_acquire(&self.state, s, read_target(s)) {
                Ok(_) => Some(ReadGuard { lock: self }),
                Err(e) => {
                    attempt.observed = e;
                    None
                },
            }
        } else {
            wait(&self.state, s);
            attempt.observed = self.state.load(Ordering::Acquire);
            None
        }
    }

    /// One step of taking the write guard. From a word without readers, tries to
    /// swap in `WRITE_LOCKED`; from an even word with readers, marks a writer as
    /// waiting, which stops further readers; otherwise loads the writer beacon,
    /// and parks on it if the lock is still taken. Records the word it found or
    /// wrote. Returns the guard once it is taken; the caller repeats until then.
    pub fn write_step(&self, attempt: &mut RwAttempt) -> (r: Option<WriteGuard<'_, T>>)
        ensures
            r matches Some(g) ==> g.rwlock() == self,
            r is Some ==> old(attempt).observed() <= 1 && final(attempt).observed() == old(
                attempt,
            ).observed(),
            old(attempt).observed() <= 1 && r is None ==> final(attempt).observed() != old(
                attempt,
            ).observed(),
            may_mark(old(attempt).observed()) ==> r is None && final(attempt).observed() != old(
                attempt,
            ).observed(),
            old(attempt).observed() > 1 ==> r is None,
    {
        let s = attempt.observed;
        if s <= 1 {
            match cas_acquire(&self.state, s, write_target()) {
                Ok(_) => Some(WriteGuard { lock: self }),
                Err(e) => {
                    attempt.observed = e;
                    None
                },
            }
        } else if writer_should_mark(s) {
            match cas_acquire(&self.state, s, mark_target(s)) {
                Ok(_) => {
                    attempt.observed = mark_target(s);
                    None
                },
                Err(e) => {
                    attempt.observed = e;
                    None
                },
            }
        } else {
            let beacon = self.writer_beacon.load(Ordering::Acquire);
            let now = self.state.load(Ordering::Acquire);
            if writer_must_park(now) {
                wait(&self.writer_beacon, beacon);
                attempt.observed = self.state.load(Ordering::Acquire);
            } else {
                attempt.observed = now;
            }
            None
        }
    }

    /// Leaves as a reader: removes one reader, and if it was the last one while
    /// a writer waits, wakes that writer.
    fn read_unlock(&self)
        opens_invariants none
        no_unwind
    {
        let prev = fetch_sub_acq_rel(&self.state, 2);
        if read_release_wakes(prev) {
            fetch_add_release(&self.writer_beacon, 1);
            wake_one(&self.writer_beacon);
        }
    }

    /// Releases the write lock, then wakes one waiting writer and every parked
    /// reader.
    fn write_unlock(&self)
        opens_invariants none
        no_unwind
    {
        store_release(&self.state, 0);
        fetch_add_release(&self.writer_beacon, 1);
        wake_one(&self.writer_beacon);
        wake_all(&self.state);
    }
}

impl<'a, T> ReadGuard<'a, T> {
    /// The lock this guard reads under.
    pub closed spec fn rwlock(&self) -> &'a RwLock<T> {
        self.lock
    }

    /// Shared access to the protected value.
    pub fn value(&self) -> (r: &T)
        ensures
            *r == self.rwlock().value(),
    {
        &self.lock.value
    }
}

impl<'a, T> Drop for ReadGuard<'a, T> {
    fn drop(&mut self)
        opens_invariants none
        no_unwind
    {
        self.lock.read_unlock();
    }
}

impl<'a, T> WriteGuard<'a, T> {
    /// The lock this guard holds.
    pub closed spec fn rwlock(&self) -> &'a RwLock<T> {
        self.lock
    }

    /// Access to the protected value.
    pub fn value(&self) -> (r: &T)
        ensures
            *r == self.rwlock().value(),
    {
        &self.lock.value
    }
}

impl<'a, T> Drop for WriteGuard<'a, T> {
    fn drop(&mut self)
        opens_invariants none
        no_unwind
    {
        self.lock.write_unlock();
    }
}

} // verus!
