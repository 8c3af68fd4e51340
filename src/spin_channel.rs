//! A single-message channel whose receiver spins, with four states so that
//! concurrent receive attempts are serialised by compare-and-swap.
//!
//! As in `oneshot`, the message travels in a slot of the caller's choosing.
use std::sync::atomic::{AtomicU8, Ordering};
use vstd::prelude::*;
use crate::arc::share;
use crate::atomics::{cas_u8_acquire, spin_hint};

verus! {

/// No message has been sent.
pub const EMPTY: u8 = 0;

/// The message is in the slot and nobody reads it yet.
pub const READY: u8 = 1;

/// A receiver has claimed the message and is reading it.
pub const READING: u8 = 2;

/// The message has been read.
pub const READ: u8 = 3;

/// The state word's transitions. `claim` is `compare_exchange(READY, READING)`;
/// the flag says whether it succeeded.
pub open spec fn claim(state: u8) -> (u8, bool) {
    if state == READY {
        (READING, true)
    } else {
        (state, false)
    }
}

/// At most one receiver reads: a claim succeeds only on a published message,
/// and after one success every further claim fails until the state is reset,
/// which nothing does.
pub proof fn lemma_single_claim(state: u8)
    ensures
        claim(state).1 <==> state == READY,
        claim(state).1 ==> !claim(claim(state).0).1,
        !claim(READING).1,
        !claim(READ).1,
        !claim(EMPTY).1,
{
}

/// The state a successful claim writes.
pub fn claimed_state() -> (r: u8)
    ensures
        r == claim(READY).0,
{
    READING
}

/// The state a send publishes.
pub fn published_state() -> (r: u8)
    ensures
        !claim(EMPTY).1 && claim(r).1,
        r == READY,
{
    READY
}

/// The state a receiver leaves once it has read the message, from which no
/// claim succeeds.
pub fn finished_state() -> (r: u8)
    ensures
        !claim(r).1,
        r == READ,
{
    READ
}

/// The block the two handles share.
struct Channel<S> {
    state: AtomicU8,
    slot: S,
}

/// The receiving handle.
pub struct Receiver<S> {
    channel: std::sync::Arc<Channel<S>>,
}

/// The sending handle; `send` consumes it, so a channel sends at most once.
pub struct Sender<S> {
    channel: std::sync::Arc<Channel<S>>,
}

/// A fresh channel whose message will travel in `slot`: the sending and the
/// receiving handle, which share it.
pub fn channel<S>(slot: S) -> (r: (Sender<S>, Receiver<S>))
    ensures
        r.0.slot() == slot,
        r.1.slot() == slot,
{
    let shared = std::sync::Arc::new(Channel { state: AtomicU8::new(EMPTY), slot });
    (Sender { channel: share(&shared) }, Receiver { channel: shared })
}

impl<S> Sender<S> {
    /// The slot the message travels in.
    pub closed spec fn slot(&self) -> S {
        self.channel.slot
    }

    /// The slot, for the caller to fill before `send`.
    pub fn slot_ref(&self) -> (r: &S)
        ensures
            *r == self.slot(),
    {
        &self.channel.slot
    }

    /// Publishes the filled slot with a release store, and returns the state
    /// it published. Consuming the handle makes a second send impossible to
    /// write.
    pub fn send(self) -> (r: u8)
        ensures
            r == READY,
            claim(r).1,
    {
        let state = published_state();
        self.channel.state.store(state, Ordering::Release);
        state
    }
}

impl<S> Receiver<S> {
    /// The slot the message travels in.
    pub closed spec fn slot(&self) -> S {
        self.channel.slot
    }

    /// One attempt to claim the message, from `READY` to `READING`. Returns the
    /// state the compare-and-swap found, and the slot when the claim succeeded;
    /// on failure it gives a spin-wait hint, for the caller to try again.
    pub fn try_receive(&self) -> (r: (u8, Option<&S>))
        ensures
            r.1 matches Some(s) ==> *s == self.slot(),
            r.1 is Some <==> claim(r.0).1,
    {
        match cas_u8_acquire(&self.channel.state, READY, claimed_state()) {
            Ok(prev) => (prev, Some(&self.channel.slot)),
            Err(prev) => {
                spin_hint();
                (prev, None)
            },
        }
    }

    /// Marks the claimed message as read, and returns the state it stored;
    /// the receiving handle is consumed.
    pub fn finish(self) -> (r: u8)
        ensures
            r == READ,
            !claim(r).1,
    {
        let state = finished_state();
        self.channel.state.store(state, Ordering::Release);
        state
    }
}

} // verus!
