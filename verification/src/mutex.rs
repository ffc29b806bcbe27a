use crate::atomics::bool_at_start;
use crate::atomics::bool_new;
use crate::exclusion::flag_after_acquire;
use crate::exclusion::flag_after_release;
use crate::exclusion::free_flag;
use crate::payload::exclusive_value;
use crate::payload::exclusive_value_mut;
use crate::payload::store_new;
use crate::payload::store_try_write;
use std::sync::atomic::AtomicBool;
use std::sync::atomic::Ordering;
use vstd::prelude::*;

verus! {

/// `AtomicBool::compare_exchange` with acquire ordering where it stores and relaxed ordering
/// where it does not: stores `to` if it finds `from`, and returns what it found, as `Ok`
/// where it stored and as `Err` where it did not. The operands are a step of the lock from
/// free to taken.
#[verifier::external_body]
fn flag_swap(word: &AtomicBool, from: bool, to: bool) -> (found: Result<bool, bool>)
    requires
        flag_after_acquire(from) == Some(to),
    ensures
        found matches Ok(flag) ==> flag == from,
        found matches Err(flag) ==> flag != from,
{
    word.compare_exchange(from, to, Ordering::Acquire, Ordering::Relaxed)
}

/// `AtomicBool::store` with release ordering, of the flag of a free lock. It does not
/// unwind.
#[verifier::external_body]
fn flag_free(word: &AtomicBool, to: bool)
    requires
        to == flag_after_release(),
    opens_invariants none
    no_unwind
{
    word.store(to, Ordering::Release)
}

/// A lock for one holder at a time, whose waiters spin.
///
/// The flag is `true` while a guard is live. Nothing orders the waiters: under lasting
/// contention any of them may wait for ever. The laws of [`crate::exclusion`] describe the
/// lock as a whole, with the flag as its word.
#[verifier::reject_recursive_types(T)]
pub struct Mutex<T> {
    value: std::sync::RwLock<T>,
    locked: AtomicBool,
}

/// Exclusive access to the value of a [`Mutex`], given back when the guard goes.
#[verifier::reject_recursive_types(T)]
pub struct MutexGuard<'a, T> {
    mutex: &'a Mutex<T>,
    value: std::sync::RwLockWriteGuard<'a, T>,
}

impl<'a, T> MutexGuard<'a, T> {
    /// The mutex that this guard holds.
    pub closed spec fn origin(&self) -> &Mutex<T> {
        self.mutex
    }
}

impl<T> Mutex<T> {
    /// The flag of this mutex.
    pub closed spec fn flag_source(&self) -> AtomicBool {
        self.locked
    }

    /// A free mutex around `value`: its flag starts as the flag of a free lock.
    pub fn new(value: T) -> (mutex: Self)
        ensures
            bool_at_start(mutex.flag_source()) == free_flag(),
    {
        Mutex { value: store_new(value), locked: bool_new(false) }
    }

    /// Asks once for the lock: swaps the flag from free to taken. The answer is `None` while
    /// a guard is live, and can be `None` while one is just going.
    pub fn try_lock(&self) -> (guard: Option<MutexGuard<'_, T>>)
        ensures
            guard matches Some(g) ==> g.origin() == self,
    {
        let found = flag_swap(&self.locked, false, true);
        let access = if found.is_ok() {
            store_try_write(&self.value)
        } else {
            None
        };
        self.hold(found, access)
    }

    /// What a caller is left with whose swap of the flag ended as `found` and whom the store
    /// answered with `access`: the guard, exactly where the swap took the flag and the store
    /// gave access. Where the swap took the flag and the store gave none, the flag is freed
    /// again.
    fn hold<'a>(
        &'a self,
        found: Result<bool, bool>,
        access: Option<std::sync::RwLockWriteGuard<'a, T>>,
    ) -> (guard: Option<MutexGuard<'a, T>>)
        ensures
            guard is Some <==> found is Ok && access is Some,
            guard matches Some(g) ==> g.origin() == self,
    {
        if found.is_err() {
            None
        } else {
            match access {
                Some(value) => Some(MutexGuard { mutex: self, value }),
                None => {
                    flag_free(&self.locked, false);
                    None
                },
            }
        }
    }

    /// Asks for the lock until it is given, `attempts` times at most, with a hint to the
    /// processor after each refusal. The answer is `None` where a guard was live at every
    /// attempt.
    pub fn lock(&self, attempts: usize) -> (guard: Option<MutexGuard<'_, T>>)
        ensures
            attempts == 0 ==> guard is None,
            guard matches Some(g) ==> g.origin() == self,
    {
        let mut left: usize = attempts;
        while left > 0
            invariant
                left <= attempts,
            decreases left,
        {
            match self.try_lock() {
                Some(guard) => {
                    return Some(guard);
                },
                None => {},
            }
            std::hint::spin_loop();
            left = left - 1;
        }
        None
    }
}

impl<'a, T> std::ops::Deref for MutexGuard<'a, T> {
    type Target = T;

    fn deref(&self) -> &T {
        exclusive_value(&self.value)
    }
}

impl<'a, T> std::ops::DerefMut for MutexGuard<'a, T> {
    fn deref_mut(&mut self) -> &mut T {
        exclusive_value_mut(&mut self.value)
    }
}

impl<T> Drop for MutexGuard<'_, T> {
    /// Stores the flag of a free lock.
    fn drop(&mut self)
        opens_invariants none
        no_unwind
    {
        flag_free(&self.mutex.locked, false);
    }
}

} // verus!
