use crate::cell::Cell;
use crate::owners::decremented;
use crate::owners::incremented;
use crate::owners::OwnerLedger;
use vstd::prelude::*;

verus! {

/// The block that the handles of one [`Rc`] share: the value and the count of its owners.
#[verifier::reject_recursive_types(T)]
pub struct RcInner<T> {
    value: T,
    owner_count: Cell<usize>,
}

/// A handle to a value that several places of one thread own together. The value goes
/// when the last handle goes, and can only be read through a handle.
///
/// The handles are for one thread only, and their type says so.
/// [`crate::owners::OwnerLedger`] describes the block as a whole.
#[verifier::reject_recursive_types(T)]
pub struct Rc<T> {
    inner: std::rc::Rc<RcInner<T>>,
}

impl<T> View for Rc<T> {
    type V = T;

    /// The value that the handle gives access to.
    closed spec fn view(&self) -> T {
        self.inner.value
    }
}

impl<T> Rc<T> {
    /// The count of owners that the block of this handle was made with.
    pub closed spec fn count_at_start(&self) -> usize {
        self.inner.owner_count.at_start()
    }

    /// The first handle to `value`, in a block that starts with the count of
    /// [`OwnerLedger::fresh`].
    pub fn new(value: T) -> (handle: Self)
        ensures
            handle@ == value,
            handle.count_at_start() == OwnerLedger::fresh().count,
    {
        let inner = RcInner { value, owner_count: Cell::new(1) };
        Rc { inner: std::rc::Rc::new(inner) }
    }

    /// The count of owners as it stands at this moment.
    pub fn owner_count(&self) -> (count: usize) {
        self.inner.owner_count.get()
    }
}

impl<T> Clone for Rc<T> {
    /// One more handle to the same block. The count grows as [`incremented`] decides; a
    /// broken count is left as it is.
    fn clone(&self) -> (handle: Self)
        ensures
            handle@ == self@,
            handle.count_at_start() == self.count_at_start(),
    {
        match incremented(self.inner.owner_count.get()) {
            Some(next) => {
                self.inner.owner_count.set(next);
            },
            None => {},
        }
        Rc { inner: self.inner.clone() }
    }
}

impl<T> std::ops::Deref for Rc<T> {
    type Target = T;

    fn deref(&self) -> (value: &Self::Target)
        ensures
            *value == self@,
    {
        &self.inner.value
    }
}

impl<T> Drop for Rc<T> {
    /// Takes this handle off the count, as [`decremented`] decides; a broken count is left
    /// as it is. The value goes with the last handle.
    fn drop(&mut self)
        opens_invariants none
        no_unwind
    {
        match decremented(self.inner.owner_count.get()) {
            Some(next) => {
                let _ = self.inner.owner_count.replace(next);
            },
            None => {},
        }
    }
}

} // verus!
