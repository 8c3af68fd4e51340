//! Atomic operations whose std contract the library needs: the compare-and-swap
//! with what its result says about the word, and the release-side operations,
//! which run inside `drop` and so must be known not to unwind.
use std::sync::atomic::{AtomicBool, AtomicU32, AtomicU8, Ordering};
use vstd::prelude::*;

verus! {

/// Relies on `AtomicU32::compare_exchange` (`Acquire` on success, `Relaxed` on
/// failure, a pair that never panics): `Ok` holds the previous value, which is
/// `current`, and `new` was written; `Err` holds the value found, which is not
/// `current`, and nothing was written.
#[verifier::external_body]
pub(crate) fn cas_acquire(atomic: &AtomicU32, current: u32, new: u32) -> (r: Result<u32, u32>)
    ensures
        r matches Ok(v) ==> v == current,
        r matches Err(v) ==> v != current,
{
    atomic.compare_exchange(current, new, Ordering::Acquire, Ordering::Relaxed)
}

/// Relies on `AtomicU8::compare_exchange` (`Acquire` on success, `Relaxed` on
/// failure): `Ok` holds the previous value, which is `current`; `Err` holds the
/// value found, which is not `current`.
#[verifier::external_body]
pub(crate) fn cas_u8_acquire(atomic: &AtomicU8, current: u8, new: u8) -> (r: Result<u8, u8>)
    ensures
        r matches Ok(v) ==> v == current,
        r matches Err(v) ==> v != current,
{
    atomic.compare_exchange(current, new, Ordering::Acquire, Ordering::Relaxed)
}

/// Relies on `AtomicBool::store` with `Release` ordering, which never panics
/// (only the `Acquire` and `AcqRel` orderings make a store panic).
#[verifier::external_body]
pub(crate) fn store_bool_release(atomic: &AtomicBool, value: bool)
    opens_invariants none
    no_unwind
{
    atomic.store(value, Ordering::Release)
}

/// Relies on `AtomicU32::store` with `Release` ordering, which never panics.
#[verifier::external_body]
pub(crate) fn store_release(atomic: &AtomicU32, value: u32)
    opens_invariants none
    no_unwind
{
    atomic.store(value, Ordering::Release)
}

/// Relies on `AtomicU32::swap` with `Release` ordering, which never panics; it
/// returns the value that was replaced.
#[verifier::external_body]
pub(crate) fn swap_release(atomic: &AtomicU32, value: u32) -> u32
    opens_invariants none
    no_unwind
{
    atomic.swap(value, Ordering::Release)
}

/// Relies on `AtomicU32::fetch_add` with `Release` ordering, which wraps on
/// overflow and never panics; it returns the previous value.
#[verifier::external_body]
pub(crate) fn fetch_add_release(atomic: &AtomicU32, value: u32) -> u32
    opens_invariants none
    no_unwind
{
    atomic.fetch_add(value, Ordering::Release)
}

/// Relies on `AtomicU32::fetch_sub` with `AcqRel` ordering, which wraps on
/// overflow and never panics; it returns the previous value.
#[verifier::external_body]
pub(crate) fn fetch_sub_acq_rel(atomic: &AtomicU32, value: u32) -> u32
    opens_invariants none
    no_unwind
{
    atomic.fetch_sub(value, Ordering::AcqRel)
}

/// Relies on `std::hint::spin_loop`, a processor hint with no effect on memory.
#[verifier::external_body]
pub(crate) fn spin_hint() {
    std::hint::spin_loop()
}

} // verus!
