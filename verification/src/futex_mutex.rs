use crate::exclusion::flag_after_acquire;
use crate::exclusion::flag_after_release;
use crate::exclusion::free_flag;
use crate::payload::exclusive_value;
use crate::payload::exclusive_value_mut;
use crate::payload::store_new;
use crate::payload::store_try_write;
use std::sync::atomic::AtomicU32;
use std::sync::atomic::Ordering;
use vstd::prelude::*;

verus! {

/// `linux_futex::Futex`: a 32-bit word on which threads can sleep and be woken.
#[verifier::external_type_specification]
#[verifier::external_body]
#[verifier::reject_recursive_types(Scope)]
pub struct ExFutex<Scope>(linux_futex::Futex<Scope>);

/// `linux_futex::Private`: marks a futex that only this process uses.
#[verifier::external_type_specification]
#[verifier::external_body]
pub struct ExPrivate(linux_futex::Private);

/// The value that the word of a futex was made with. It says nothing of the value that the
/// word holds at a given moment.
pub uninterp spec fn word_at_start(futex: linux_futex::Futex<linux_futex::Private>) -> u32;

/// `linux_futex::Futex::new`: a futex whose word starts as `value`.
#[verifier::external_body]
fn futex_new(value: u32) -> (futex: linux_futex::Futex<linux_futex::Private>)
    ensures
        word_at_start(futex) == value,
{
    linux_futex::Futex::new(value)
}

/// The word of the futex for a lock that is taken, or free.
pub open spec fn word_of(locked: bool) -> u32 {
    if locked {
        1
    } else {
        0
    }
}

/// The word of the futex after a caller has asked for the lock, or `None` where the caller
/// is refused: the step of [`flag_after_acquire`], told in words of the futex.
pub open spec fn word_after_acquire(word: u32) -> Option<u32> {
    match flag_after_acquire(word != word_of(free_flag())) {
        Some(locked) => Some(word_of(locked)),
        None => None,
    }
}

/// The word of the futex after the guard has gone.
pub open spec fn word_after_release() -> u32 {
    word_of(flag_after_release())
}

/// The number of waiters that a guard wakes as it goes.
pub open spec fn woken_by_release() -> i32 {
    1
}

/// The field `value` of `linux_futex::Futex`: the word that the futex waits on.
#[verifier::external_body]
fn futex_word(futex: &linux_futex::Futex<linux_futex::Private>) -> (word: &AtomicU32)
    opens_invariants none
    no_unwind
{
    &futex.value
}

/// `AtomicU32::compare_exchange` with acquire ordering where it stores and relaxed ordering
/// where it does not: stores `to` if it finds `from`, and returns what it found, as `Ok`
/// where it stored and as `Err` where it did not. The operands are a step of the lock from
/// free to taken.
#[verifier::external_body]
fn word_swap(word: &AtomicU32, from: u32, to: u32) -> (found: Result<u32, u32>)
    requires
        word_after_acquire(from) == Some(to),
    ensures
        found matches Ok(seen) ==> seen == from,
        found matches Err(seen) ==> seen != from,
{
    word.compare_exchange(from, to, Ordering::Acquire, Ordering::Relaxed)
}

/// `AtomicU32::store` with release ordering, of the word of a free lock. It does not
/// unwind.
#[verifier::external_body]
fn word_free(word: &AtomicU32, to: u32)
    requires
        to == word_after_release(),
    opens_invariants none
    no_unwind
{
    word.store(to, Ordering::Release)
}

/// `linux_futex::Futex::wait`: puts the thread to sleep until the futex is woken, unless
/// its word differs from `expected`, in which case it returns at once. It may also return
/// early, on a signal. Why it returned is not handed on. The word to expect is that of a
/// lock which somebody has taken.
#[verifier::external_body]
fn futex_wait(futex: &linux_futex::Futex<linux_futex::Private>, expected: u32)
    requires
        word_after_acquire(word_after_release()) == Some(expected),
{
    let _ = futex.wait(expected);
}

/// `linux_futex::Futex::wake`: wakes `n` of the threads that sleep on the futex, at most,
/// and returns how many it woke. On a futex in this process's memory the call does not
/// fail, so it does not unwind. Nothing is claimed of the result.
#[verifier::external_body]
fn futex_wake(futex: &linux_futex::Futex<linux_futex::Private>, n: i32) -> (woken: i32)
    requires
        n == woken_by_release(),
    opens_invariants none
    no_unwind
{
    futex.wake(n)
}

/// A lock for one holder at a time, whose waiters sleep until the holder wakes one of them.
///
/// The word of the futex is `1` while a guard is live and `0` otherwise. The laws of
/// [`crate::exclusion`] describe the lock as a whole.
#[verifier::reject_recursive_types(T)]
pub struct FutexMutex<T> {
    value: std::sync::RwLock<T>,
    futex: linux_futex::Futex<linux_futex::Private>,
}

/// Exclusive access to the value of a [`FutexMutex`], given back when the guard goes.
#[verifier::reject_recursive_types(T)]
pub struct FutexMutexGuard<'a, T> {
    mutex: &'a FutexMutex<T>,
    value: std::sync::RwLockWriteGuard<'a, T>,
}

impl<'a, T> FutexMutexGuard<'a, T> {
    /// The mutex that this guard holds.
    pub closed spec fn origin(&self) -> &FutexMutex<T> {
        self.mutex
    }
}

impl<T> FutexMutex<T> {
    /// The futex of this mutex.
    pub closed spec fn word_source(&self) -> linux_futex::Futex<linux_futex::Private> {
        self.futex
    }

    /// A free mutex around `value`: the word of its futex starts as the word of a free lock.
    pub fn new(value: T) -> (mutex: Self)
        ensures
            word_at_start(mutex.word_source()) == word_of(free_flag()),
    {
        FutexMutex { value: store_new(value), futex: futex_new(0) }
    }

    /// Asks once for the lock: swaps the word from `0` to `1`. The answer is `None` while a
    /// guard is live, and can be `None` while one is just going.
    pub fn try_lock(&self) -> (guard: Option<FutexMutexGuard<'_, T>>)
        ensures
            guard matches Some(g) ==> g.origin() == self,
    {
        let word = futex_word(&self.futex);
        let found = word_swap(word, 0, 1);
        let access = if found.is_ok() {
            store_try_write(&self.value)
        } else {
            None
        };
        self.hold(found, access)
    }

    /// What a caller is left with whose swap of the word ended as `found` and whom the store
    /// answered with `access`: the guard, exactly where the swap took the word and the store
    /// gave access. Where the swap took the word and the store gave none, the word is freed
    /// again and one waiter is woken.
    fn hold<'a>(
        &'a self,
        found: Result<u32, u32>,
        access: Option<std::sync::RwLockWriteGuard<'a, T>>,
    ) -> (guard: Option<FutexMutexGuard<'a, T>>)
        ensures
            guard is Some <==> found is Ok && access is Some,
            guard matches Some(g) ==> g.origin() == self,
    {
        if found.is_err() {
            None
        } else {
            match access {
                Some(value) => Some(FutexMutexGuard { mutex: self, value }),
                None => {
                    self.unlock();
                    None
                },
            }
        }
    }

    /// Asks for the lock until it is given, `attempts` times at most, and sleeps after each
    /// refusal until the holder lets go. The answer is `None` where a guard was live at
    /// every attempt.
    pub fn lock(&self, attempts: usize) -> (guard: Option<FutexMutexGuard<'_, T>>)
        ensures
            attempts == 0 ==> guard is None,
            guard matches Some(g) ==> g.origin() == self,
    {
        let mut left: usize = attempts;
        while left > 0
            invariant
                left <= attempts,
            decreases left,
        {
            match self.try_lock() {
                Some(guard) => {
                    return Some(guard);
                },
                None => {},
            }
            futex_wait(&self.futex, 1);
            left = left - 1;
        }
        None
    }

    /// Frees the lock word and wakes one waiter.
    fn unlock(&self)
        opens_invariants none
        no_unwind
    {
        word_free(futex_word(&self.futex), 0);
        let _ = futex_wake(&self.futex, 1);
    }
}

impl<'a, T> std::ops::Deref for FutexMutexGuard<'a, T> {
    type Target = T;

    fn deref(&self) -> &T {
        exclusive_value(&self.value)
    }
}

impl<'a, T> std::ops::DerefMut for FutexMutexGuard<'a, T> {
    fn deref_mut(&mut self) -> &mut T {
        exclusive_value_mut(&mut self.value)
    }
}

impl<T> Drop for FutexMutexGuard<'_, T> {
    /// Stores the word of a free lock and wakes one waiter.
    fn drop(&mut self)
        opens_invariants none
        no_unwind
    {
        self.mutex.unlock();
    }
}

} // verus!
