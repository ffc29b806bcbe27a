//! Where the guarded types keep their value.
//!
//! A value that is reached through shared references lives in a `std::sync::RwLock`, which
//! hands out access to it without blocking and refuses access that would overlap with a
//! writer. Each guarded type keeps its own lock state beside the store and asks the store
//! only after its own state has admitted the caller.

use std::ops::Deref;
use std::ops::DerefMut;
use vstd::prelude::*;

verus! {

/// `std::sync::RwLock`, the store of a guarded value. What it holds cannot be seen in
/// contracts.
#[verifier::external_type_specification]
#[verifier::external_body]
#[verifier::reject_recursive_types(T)]
pub struct ExStore<T: ?Sized>(std::sync::RwLock<T>);

/// `std::sync::RwLockReadGuard`: shared access to a stored value, which ends when it is
/// dropped.
#[verifier::external_type_specification]
#[verifier::external_body]
#[verifier::reject_recursive_types(T)]
pub struct ExSharedAccess<'a, T: ?Sized>(std::sync::RwLockReadGuard<'a, T>);

/// `std::sync::RwLockWriteGuard`: exclusive access to a stored value, which ends when it is
/// dropped.
#[verifier::external_type_specification]
#[verifier::external_body]
#[verifier::reject_recursive_types(T)]
pub struct ExExclusiveAccess<'a, T: ?Sized + 'a>(std::sync::RwLockWriteGuard<'a, T>);

/// `std::sync::RwLock::new`: a store that holds `value`. Nothing is claimed of the result.
#[verifier::external_body]
pub(crate) fn store_new<T>(value: T) -> (store: std::sync::RwLock<T>) {
    std::sync::RwLock::new(value)
}

/// `std::sync::RwLock::try_read`: shared access to the stored value, or nothing where the
/// store is claimed exclusively at this moment. A poisoned store still gives access. The
/// call never blocks. Nothing is claimed of the result.
#[verifier::external_body]
pub(crate) fn store_try_read<T>(store: &std::sync::RwLock<T>) -> (access: Option<
    std::sync::RwLockReadGuard<'_, T>,
>) {
    match store.try_read() {
        Ok(access) => Some(access),
        Err(std::sync::TryLockError::Poisoned(poisoned)) => Some(poisoned.into_inner()),
        Err(std::sync::TryLockError::WouldBlock) => None,
    }
}

/// `std::sync::RwLock::try_write`: exclusive access to the stored value, or nothing where
/// any access to the store is live at this moment. A poisoned store still gives access. The
/// call never blocks. Nothing is claimed of the result.
#[verifier::external_body]
pub(crate) fn store_try_write<T>(store: &std::sync::RwLock<T>) -> (access: Option<
    std::sync::RwLockWriteGuard<'_, T>,
>) {
    match store.try_write() {
        Ok(access) => Some(access),
        Err(std::sync::TryLockError::Poisoned(poisoned)) => Some(poisoned.into_inner()),
        Err(std::sync::TryLockError::WouldBlock) => None,
    }
}

/// `Deref::deref` of `std::sync::RwLockReadGuard`: the stored value, for reading. It does
/// not unwind. Nothing is claimed of the value.
#[verifier::external_body]
pub(crate) fn shared_value<'b, 'a, T>(access: &'b std::sync::RwLockReadGuard<'a, T>) -> (value:
    &'b T)
    opens_invariants none
    no_unwind
{
    access.deref()
}

/// `Deref::deref` of `std::sync::RwLockWriteGuard`: the stored value, for reading. It does
/// not unwind. Nothing is claimed of the value.
#[verifier::external_body]
pub(crate) fn exclusive_value<'b, 'a, T>(access: &'b std::sync::RwLockWriteGuard<'a, T>) -> (value:
    &'b T)
    opens_invariants none
    no_unwind
{
    access.deref()
}

/// `DerefMut::deref_mut` of `std::sync::RwLockWriteGuard`: the stored value, for writing.
/// It does not unwind. Nothing is claimed of the value.
#[verifier::external_body]
pub(crate) fn exclusive_value_mut<'b, 'a, T>(
    access: &'b mut std::sync::RwLockWriteGuard<'a, T>,
) -> (value: &'b mut T)
    opens_invariants none
    no_unwind
{
    access.deref_mut()
}

} // verus!
