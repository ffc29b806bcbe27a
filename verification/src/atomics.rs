use std::sync::atomic::AtomicBool;
use std::sync::atomic::AtomicIsize;
use std::sync::atomic::AtomicUsize;
use std::sync::atomic::Ordering;
use vstd::prelude::*;

verus! {

/// The value that an atomic flag was made with. It says nothing of the value that the flag
/// holds at a given moment.
pub uninterp spec fn bool_at_start(word: AtomicBool) -> bool;

/// The value that an atomic signed word was made with. It says nothing of the value that
/// the word holds at a given moment.
pub uninterp spec fn isize_at_start(word: AtomicIsize) -> isize;

/// The value that an atomic counter was made with. It says nothing of the value that the
/// counter holds at a given moment.
pub uninterp spec fn usize_at_start(word: AtomicUsize) -> usize;

/// `AtomicBool::new`: a flag that starts as `value`.
#[verifier::external_body]
pub(crate) fn bool_new(value: bool) -> (word: AtomicBool)
    ensures
        bool_at_start(word) == value,
{
    AtomicBool::new(value)
}

/// `AtomicIsize::new`: a word that starts as `value`.
#[verifier::external_body]
pub(crate) fn isize_new(value: isize) -> (word: AtomicIsize)
    ensures
        isize_at_start(word) == value,
{
    AtomicIsize::new(value)
}

/// `AtomicUsize::new`: a counter that starts as `value`.
#[verifier::external_body]
pub(crate) fn usize_new(value: usize) -> (word: AtomicUsize)
    ensures
        usize_at_start(word) == value,
{
    AtomicUsize::new(value)
}

/// `std::sync::atomic::fence` with acquire ordering. It does not unwind.
#[verifier::external_body]
pub(crate) fn fence_acquire()
    opens_invariants none
    no_unwind
{
    std::sync::atomic::fence(Ordering::Acquire)
}

/// `std::hint::spin_loop`: tells the processor that the thread waits in a loop.
pub assume_specification[ std::hint::spin_loop ]();

} // verus!
