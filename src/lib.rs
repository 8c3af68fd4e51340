//! Concurrency primitives built on atomic words and thread parking: a spin lock,
//! a blocking mutex, a reader/writer lock, two one-shot channels and a
//! reference-counted handle.
//!
//! Each primitive comes with a model of its state word as a state machine, and
//! the laws the protocol keeps (mutual exclusion, writer priority, no missed
//! wakeup, one release of the last handle, one delivery per channel) are
//! proved of those models. The code follows the models: the words it writes
//! and the decisions it takes on the words it reads are made by small
//! functions whose contracts are the models' transitions, and each step
//! reports the word its atomic instruction found, with a guard exactly when the
//! model's transition from that word grants one. That the word in memory moves
//! only by these transitions rests on every write to it being one of them.
//!
//! The blocking operations are offered one step at a time (`lock_step`,
//! `read_step`, `write_step`, `poll`, `try_lock`, `try_receive`): each step makes
//! one atomic transition, parking where the protocol says so, and the caller
//! repeats it until it yields the guard or the message.
//!
//! The guards hand out shared access to the protected value; a value with
//! interior mutability becomes exclusively mutable through them.
mod atomics;
mod park;

pub mod arc;
pub mod mutex;
pub mod oneshot;
pub mod rwlock;
pub mod spin_channel;
pub mod spin_lock;

pub use arc::{Arc, ArcData};
pub use mutex::{LockAttempt, Mutex, MutexGuard};
pub use rwlock::{ReadGuard, RwAttempt, RwLock, WriteGuard};
pub use spin_lock::{Guard, SpinLock};
