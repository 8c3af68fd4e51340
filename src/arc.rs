//! A reference-counted shared handle. The allocation itself is shared through
//! `std::sync::Arc`; the count kept beside the value says whether a handle is
//! the only one, which is what `get_mut` needs.
use std::sync::atomic::{AtomicU32, Ordering};
use vstd::prelude::*;
use crate::atomics::fetch_sub_acq_rel;

verus! {

/// Relies on `<std::sync::Arc<X> as Clone>::clone`: a new handle to the same
/// allocation.
#[verifier::external_body]
pub(crate) fn share<X>(a: &std::sync::Arc<X>) -> (r: std::sync::Arc<X>)
    ensures
        r == *a,
{
    std::sync::Arc::clone(a)
}

/// Relies on `std::sync::Arc::get_mut`: `Some` only when no other handle (strong
/// or weak) to the allocation exists.
#[verifier::external_body]
pub(crate) fn get_unique<X>(a: &mut std::sync::Arc<X>) -> (r: Option<&mut X>)
    ensures
        r matches Some(x) ==> *x == **old(a),
{
    std::sync::Arc::get_mut(a)
}

/// What each of `n` successive drops observes, starting from `count` live
/// handles: whether that drop found itself the last handle.
pub open spec fn drops_find_last(count: nat, n: nat) -> Seq<bool>
    decreases n,
{
    if n == 0 {
        Seq::empty()
    } else {
        seq![count == 1] + drops_find_last((count - 1) as nat, (n - 1) as nat)
    }
}

/// Reference count correctness: a handle cloned `k` times gives `k + 1`
/// handles; when all of them are dropped, in whatever order, exactly one drop
/// finds itself the last, and it is the final one.
pub proof fn lemma_last_drop_once(k: nat)
    ensures
        drops_find_last(k + 1, k + 1).len() == k + 1,
        drops_find_last(k + 1, k + 1)[k as int],
        forall|i: int| 0 <= i < k ==> !#[trigger] drops_find_last(k + 1, k + 1)[i],
{
    lemma_drops_from(k + 1, k + 1);
}

proof fn lemma_drops_from(count: nat, n: nat)
    requires
        n <= count,
    ensures
        drops_find_last(count, n).len() == n,
        forall|i: int|
            0 <= i < n ==> #[trigger] drops_find_last(count, n)[i] == (count - i == 1),
    decreases n,
{
    if n > 0 {
        lemma_drops_from((count - 1) as nat, (n - 1) as nat);
        let tail = drops_find_last((count - 1) as nat, (n - 1) as nat);
        assert forall|i: int| 0 <= i < n implies #[trigger] drops_find_last(count, n)[i] == (
        count - i == 1) by {
            if i > 0 {
                assert(drops_find_last(count, n)[i] == tail[i - 1]);
            }
        }
    }
}

/// The block a handle points to: the count of handles and the value.
pub struct ArcData<T> {
    count: AtomicU32,
    data: T,
}

impl<T> ArcData<T> {
    /// The value the block holds.
    pub closed spec fn value(&self) -> T {
        self.data
    }
}

/// Whether a handle that loaded the count `count` is the only one.
pub fn is_sole_handle(count: u32) -> (r: bool)
    ensures
        r == (count == 1),
{
    count == 1
}

/// The mutable access `get_mut` grants from the loaded count and from what
/// `std::sync::Arc::get_mut` gave: the value when the count is 1 and std found
/// the handle unique, else nothing.
pub fn grant_unique<'a, X>(count: u32, unique: Option<&'a mut ArcData<X>>) -> (r: Option<&'a mut X>)
    ensures
        r is Some <==> (count == 1 && unique is Some),
        r matches Some(v) ==> (unique matches Some(d) && *v == d.value()),
{
    if is_sole_handle(count) {
        match unique {
            Some(d) => Some(&mut d.data),
            None => None,
        }
    } else {
        None
    }
}

/// A shared handle to a value; cloning it adds to the count, dropping it
/// takes one away.
pub struct Arc<T> {
    ptr: std::sync::Arc<ArcData<T>>,
}

impl<T> Arc<T> {
    /// The shared value.
    pub closed spec fn value(&self) -> T {
        self.ptr.data
    }

    /// The only handle to a new allocation holding `value`; the count is 1.
    pub fn new(value: T) -> (r: Self)
        ensures
            r.value() == value,
    {
        Arc { ptr: std::sync::Arc::new(ArcData { count: AtomicU32::new(1), data: value }) }
    }

    /// Mutable access to the value when `arc` is the only handle, else `None`.
    pub fn get_mut(arc: &mut Self) -> (r: Option<&mut T>)
        ensures
            r matches Some(v) ==> *v == old(arc).value(),
    {
        let count = arc.ptr.count.load(Ordering::Acquire);
        let unique = if is_sole_handle(count) {
            get_unique(&mut arc.ptr)
        } else {
            None
        };
        grant_unique(count, unique)
    }
}

impl<T> Clone for Arc<T> {
    fn clone(&self) -> (r: Self)
        ensures
            r.value() == self.value(),
    {
        self.ptr.count.fetch_add(1, Ordering::Acquire);
        Arc { ptr: share(&self.ptr) }
    }
}

impl<T> std::ops::Deref for Arc<T> {
    type Target = T;

    fn deref(&self) -> (r: &T)
        ensures
            *r == self.value(),
    {
        &self.ptr.data
    }
}

/// Takes this handle out of the count, with release and acquire ordering, so
/// that `get_mut` on a remaining handle sees it gone. The value itself is
/// freed by the `std::sync::Arc` field, once, when the last handle goes.
impl<T> Drop for Arc<T> {
    fn drop(&mut self)
        opens_invariants none
        no_unwind
    {
        fetch_sub_acq_rel(&self.ptr.count, 1);
    }
}

} // verus!
