//! Thread parking on a 32-bit atomic word, through the `atomic-wait` crate.
use std::sync::atomic::AtomicU32;
use vstd::prelude::*;

verus! {

/// Relies on `atomic_wait::wait`: blocks while the word holds `expected`, until a
/// wake call on the same word; it may also return spuriously. Nothing is
/// promised about the word when it returns, so callers read it again.
#[verifier::external_body]
pub(crate) fn wait(atomic: &AtomicU32, expected: u32) {
    atomic_wait::wait(atomic, expected)
}

/// Relies on `atomic_wait::wake_one`: wakes at most one thread parked on the word.
/// It never panics and touches no memory of the caller.
#[verifier::external_body]
pub(crate) fn wake_one(atomic: &AtomicU32)
    opens_invariants none
    no_unwind
{
    atomic_wait::wake_one(atomic)
}

/// Relies on `atomic_wait::wake_all`: wakes every thread parked on the word.
/// It never panics and touches no memory of the caller.
#[verifier::external_body]
pub(crate) fn wake_all(atomic: &AtomicU32)
    opens_invariants none
    no_unwind
{
    atomic_wait::wake_all(atomic)
}

} // verus!
