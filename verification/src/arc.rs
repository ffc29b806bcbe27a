use crate::atomics::fence_acquire;
use crate::atomics::usize_at_start;
use crate::atomics::usize_new;
use crate::owners::counts_clone;
use crate::owners::counts_drop;
use crate::owners::decremented;
use crate::owners::incremented;
use crate::owners::is_last_owner;
use crate::owners::OwnerLedger;
use std::sync::atomic::AtomicUsize;
use std::sync::atomic::Ordering;
use vstd::prelude::*;

verus! {

/// `AtomicUsize::fetch_update` with [`incremented`] as the update and relaxed ordering
/// throughout. The count found is returned: as `Ok` where the update counted one more
/// handle and was stored, as `Err` where the count was broken and was left alone.
#[verifier::external_body]
fn count_clone(owner: &AtomicUsize) -> (found: Result<usize, usize>)
    ensures
        found matches Ok(count) ==> counts_clone(count),
        found matches Err(count) ==> !counts_clone(count),
{
    owner.fetch_update(Ordering::Relaxed, Ordering::Relaxed, |count| incremented(count))
}

/// `AtomicUsize::fetch_update` with [`decremented`] as the update, release ordering for the
/// write and relaxed ordering for the read. The count found is returned: as `Ok` where the
/// update took one handle off and was stored, as `Err` where the count was broken and was
/// left alone. It does not unwind.
#[verifier::external_body]
fn count_drop(owner: &AtomicUsize) -> (found: Result<usize, usize>)
    ensures
        found matches Ok(count) ==> counts_drop(count),
        found matches Err(count) ==> !counts_drop(count),
    opens_invariants none
    no_unwind
{
    owner.fetch_update(Ordering::Release, Ordering::Relaxed, |count| decremented(count))
}

/// The block that the handles of one [`Arc`] share: the value and the count of its owners.
pub struct ArcInner<T> {
    data: T,
    owner: AtomicUsize,
}

/// A handle to a value that threads own together. The value goes when the last handle
/// goes, and can only be read through a handle.
///
/// A clone adds one to the count of owners, with relaxed ordering: the handle that is
/// cloned keeps the block alive. A handle that goes takes one off, with release ordering,
/// and the last one fences with acquire ordering before the value is destroyed, so that
/// whatever other threads did with the value has happened by then.
/// [`crate::owners::OwnerLedger`] describes the block as a whole.
pub struct Arc<T> {
    ptr: std::sync::Arc<ArcInner<T>>,
}

impl<T> View for Arc<T> {
    type V = T;

    /// The value that the handle gives access to. The count of owners is no part of it:
    /// it changes under a handle that stays the same.
    closed spec fn view(&self) -> T {
        self.ptr.data
    }
}

impl<T> Arc<T> {
    /// The counter in the block of this handle.
    pub closed spec fn count_source(&self) -> AtomicUsize {
        self.ptr.owner
    }

    /// The first handle to `data`, in a block that starts with the count of
    /// [`OwnerLedger::fresh`].
    pub fn new(data: T) -> (handle: Arc<T>)
        ensures
            handle@ == data,
            usize_at_start(handle.count_source()) == OwnerLedger::fresh().count,
    {
        let inner = ArcInner { data, owner: usize_new(1) };
        Arc { ptr: std::sync::Arc::new(inner) }
    }

    /// The count of owners as it stands at this moment.
    pub fn owner_count(&self) -> (count: usize) {
        self.ptr.owner.load(Ordering::Relaxed)
    }
}

impl<T> Clone for Arc<T> {
    /// One more handle to the same block. The count grows as [`incremented`] decides; a
    /// broken count is left as it is.
    fn clone(&self) -> (handle: Self)
        ensures
            handle@ == self@,
            handle.count_source() == self.count_source(),
    {
        let _ = count_clone(&self.ptr.owner);
        Arc { ptr: self.ptr.clone() }
    }
}

impl<T> std::ops::Deref for Arc<T> {
    type Target = T;

    fn deref(&self) -> (value: &Self::Target)
        ensures
            *value == self@,
    {
        &self.ptr.data
    }
}

impl<T> Drop for Arc<T> {
    /// Takes this handle off the count, as [`decremented`] decides; a broken count is left
    /// as it is. The handle that [`is_last_owner`] tells to be the last fences before the
    /// value goes.
    fn drop(&mut self)
        opens_invariants none
        no_unwind
    {
        match count_drop(&self.ptr.owner) {
            Ok(found) => {
                if is_last_owner(found) {
                    fence_acquire();
                }
            },
            Err(_) => {},
        }
    }
}

} // verus!
