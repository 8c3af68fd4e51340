//! A single-message channel whose receiver parks until the message is there.
//!
//! The message travels in a slot of the caller's choosing, shared by the two
//! handles: the writer fills it before `send`, the reader empties it once
//! `poll` has seen the message published.
use std::sync::atomic::{AtomicU32, Ordering};
use vstd::prelude::*;
use crate::arc::share;
use crate::park::{wait, wake_all};

verus! {

/// No message has been sent.
pub const EMPTY: u32 = 0;

/// The message is in the slot.
pub const READY: u32 = 1;

/// The channel as a state machine: the state word and the message in the slot.
pub ghost struct ChannelModel<V> {
    pub state: u32,
    pub message: Option<V>,
}

impl<V> ChannelModel<V> {
    /// A fresh channel.
    pub open spec fn empty() -> Self {
        ChannelModel { state: EMPTY, message: None }
    }

    /// The word says `READY` exactly when a message is in the slot.
    pub open spec fn inv(self) -> bool {
        &&& self.state <= READY
        &&& (self.state == READY <==> self.message is Some)
    }

    /// A send is possible only on a channel that has seen none.
    pub open spec fn can_send(self) -> bool {
        self.state == EMPTY
    }

    /// The writer fills the slot, then publishes it with a release store.
    pub open spec fn send(self, v: V) -> Self {
        ChannelModel { state: READY, message: Some(v) }
    }

    /// What a reader finds after an acquire load: the message once it is
    /// published, nothing before.
    pub open spec fn delivered(self) -> Option<V> {
        if self.state == READY {
            self.message
        } else {
            None
        }
    }
}

/// One-shot discipline: a receive after the send returns exactly the value
/// sent, a receive before it finds nothing, and no second send is possible.
/// A receiver parks only while the word reads `EMPTY`, which the send changes.
pub proof fn lemma_send_then_receive<V>(v: V)
    ensures
        ChannelModel::<V>::empty().inv(),
        ChannelModel::<V>::empty().can_send(),
        ChannelModel::<V>::empty().delivered() is None,
        ChannelModel::<V>::empty().send(v).inv(),
        ChannelModel::<V>::empty().send(v).delivered() == Some(v),
        !ChannelModel::<V>::empty().send(v).can_send(),
        ChannelModel::<V>::empty().send(v).state != EMPTY,
{
}

/// Whether a reader that loaded the word `state` finds the message, whatever
/// the slot holds: the model's `delivered`.
pub open spec fn message_published(state: u32) -> bool {
    forall|v: int| #[trigger] (ChannelModel { state, message: Some(v) }).delivered() == Some(v)
}

/// Whether the loaded word `state` says the message is published.
pub fn is_published(state: u32) -> (r: bool)
    ensures
        r == message_published(state),
{
    if state == READY {
        true
    } else {
        assert((ChannelModel { state, message: Some(0int) }).delivered() != Some(0int));
        false
    }
}

/// The word a send writes: the model's `send`.
pub fn sent_state() -> (r: u32)
    ensures
        r == READY,
        forall|m: ChannelModel<int>, v: int| #[trigger] m.send(v).state == r,
{
    READY
}

/// The block the two handles share.
struct Channel<S> {
    state: AtomicU32,
    slot: S,
}

/// The receiving handle.
pub struct Reader<S> {
    channel: std::sync::Arc<Channel<S>>,
}

/// The sending handle; `send` consumes it, so a channel sends at most once.
pub struct Writer<S> {
    channel: std::sync::Arc<Channel<S>>,
}

/// A fresh channel whose message will travel in `slot`: the reading and the
/// writing handle, which share it.
pub fn channel<S>(slot: S) -> (r: (Reader<S>, Writer<S>))
    ensures
        r.0.slot() == slot,
        r.1.slot() == slot,
{
    let shared = std::sync::Arc::new(Channel { state: AtomicU32::new(EMPTY), slot });
    (Reader { channel: share(&shared) }, Writer { channel: shared })
}

impl<S> Reader<S> {
    /// The slot the message travels in.
    pub closed spec fn slot(&self) -> S {
        self.channel.slot
    }

    /// One step of receiving: loads the state word; if the message has been
    /// published, returns the slot that holds it; otherwise parks while the
    /// channel is still empty and returns no slot, for the caller to poll
    /// again. The word the load found comes back beside the slot.
    pub fn poll(&self) -> (r: (u32, Option<&S>))
        ensures
            r.1 matches Some(s) ==> *s == self.slot(),
            r.1 is Some <==> message_published(r.0),
    {
        let state = self.channel.state.load(Ordering::Acquire);
        if is_published(state) {
            (state, Some(&self.channel.slot))
        } else {
            wait(&self.channel.state, EMPTY);
            (state, None)
        }
    }
}

impl<S> Writer<S> {
    /// The slot the message travels in.
    pub closed spec fn slot(&self) -> S {
        self.channel.slot
    }

    /// The slot, for the caller to fill before `send`.
    pub fn slot_ref(&self) -> (r: &S)
        ensures
            *r == self.slot(),
    {
        &self.channel.slot
    }

    /// Publishes the filled slot with a release store and wakes the reader.
    /// Returns the word it published. Consuming the handle makes a second send
    /// on the channel impossible to write.
    pub fn send(self) -> (r: u32)
        ensures
            r == READY,
            forall|m: ChannelModel<int>, v: int| #[trigger] m.send(v).state == r,
    {
        let state = sent_state();
        self.channel.state.store(state, Ordering::Release);
        wake_all(&self.channel.state);
        state
    }
}

} // verus!
