use crate::atomics::isize_at_start;
use crate::atomics::isize_new;
use crate::payload::exclusive_value;
use crate::payload::exclusive_value_mut;
use crate::payload::shared_value;
use crate::payload::store_new;
use crate::payload::store_try_read;
use crate::payload::store_try_write;
use std::sync::atomic::AtomicIsize;
use std::sync::atomic::Ordering;
use vstd::prelude::*;

verus! {

/// The lock word after a reader has asked for admission, or `None` where the reader is
/// refused: while a writer holds the lock (the word is negative), and when the count of
/// readers cannot grow any further.
pub open spec fn word_after_read(word: int) -> Option<int> {
    if 0 <= word < isize::MAX {
        Some(word + 1)
    } else {
        None
    }
}

/// The lock word after a writer has asked for admission, or `None` where the writer is
/// refused: whenever the lock is not free.
pub open spec fn word_after_write(word: int) -> Option<int> {
    if word == 0 {
        Some(-1)
    } else {
        None
    }
}

/// The word of a free lock.
pub open spec fn free_word() -> int {
    0
}

/// The lock word after a read guard has gone, or `None` where the word counts no reader
/// that could go.
pub open spec fn word_after_read_release(word: int) -> Option<int> {
    if word >= 1 {
        Some(word - 1)
    } else {
        None
    }
}

/// The lock word after the write guard has gone.
pub open spec fn word_after_write_release() -> int {
    free_word()
}

/// Whether a swap of the word from `from` to `to` is the step that admits a writer.
pub open spec fn swaps_writer_in(from: isize, to: isize) -> bool {
    word_after_write(from as int) == Some(to as int)
}

/// Whether a read guard that finds `word` as it goes is counted in it.
pub open spec fn counts_reader(word: isize) -> bool {
    word_after_read_release(word as int) is Some
}

/// Whether a reader that finds `word` is admitted.
pub open spec fn admits_reader(word: isize) -> bool {
    word_after_read(word as int) is Some
}

/// Decides the admission of a reader: the update that a reader applies to the lock word.
pub fn admit_reader(word: isize) -> (next: Option<isize>)
    ensures
        next is Some <==> word_after_read(word as int) is Some,
        next matches Some(n) ==> word_after_read(word as int) == Some(n as int),
{
    if word < 0 {
        None
    } else if word < isize::MAX {
        Some(word + 1)
    } else {
        None
    }
}

/// Decides the release of a reader: the update that a read guard applies to the lock word
/// as it goes. A word that counts no reader is told apart and left as it is.
pub fn release_reader(word: isize) -> (next: Option<isize>)
    ensures
        next is Some <==> word_after_read_release(word as int) is Some,
        next matches Some(n) ==> word_after_read_release(word as int) == Some(n as int),
    opens_invariants none
    no_unwind
{
    if word >= 1 {
        Some(word - 1)
    } else {
        None
    }
}

/// `AtomicIsize::fetch_update` with [`release_reader`] as the update, release ordering for
/// the write and relaxed ordering for the read. The word found is returned: as `Ok` where
/// the update took a reader off and was stored, as `Err` where the word counted none and
/// was left alone. It does not unwind.
#[verifier::external_body]
fn word_release_reader(state: &AtomicIsize) -> (found: Result<isize, isize>)
    ensures
        found matches Ok(word) ==> counts_reader(word),
        found matches Err(word) ==> !counts_reader(word),
    opens_invariants none
    no_unwind
{
    state.fetch_update(Ordering::Release, Ordering::Relaxed, |word| release_reader(word))
}

/// `AtomicIsize::compare_exchange` with acquire ordering where it stores and relaxed
/// ordering where it does not: stores `to` if it finds `from`, and returns what it found,
/// as `Ok` where it stored and as `Err` where it did not. The operands are the step that
/// admits a writer.
#[verifier::external_body]
fn word_swap(state: &AtomicIsize, from: isize, to: isize) -> (found: Result<isize, isize>)
    requires
        swaps_writer_in(from, to),
    ensures
        found matches Ok(word) ==> word == from,
        found matches Err(word) ==> word != from,
{
    state.compare_exchange(from, to, Ordering::Acquire, Ordering::Relaxed)
}

/// `AtomicIsize::store` with release ordering, of the word of a free lock. It does not
/// unwind.
#[verifier::external_body]
fn word_free(state: &AtomicIsize, to: isize)
    requires
        to == word_after_write_release(),
    opens_invariants none
    no_unwind
{
    state.store(to, Ordering::Release)
}

/// `AtomicIsize::fetch_update` with [`admit_reader`] as the update, acquire ordering for the
/// write and relaxed ordering for the read. The word found is returned: as `Ok` where the
/// update admitted a reader and was stored, as `Err` where it refused.
#[verifier::external_body]
fn word_admit_reader(state: &AtomicIsize) -> (found: Result<isize, isize>)
    ensures
        found matches Ok(word) ==> admits_reader(word),
        found matches Err(word) ==> !admits_reader(word),
{
    state.fetch_update(Ordering::Acquire, Ordering::Relaxed, |word| admit_reader(word))
}

/// A lock that admits any number of readers or one writer at a time.
///
/// The lock word is `-1` while a writer holds the lock, `0` while the lock is free and the
/// number of readers otherwise. A waiting writer does not keep new readers out.
#[verifier::reject_recursive_types(T)]
pub struct RwLock<T> {
    value: std::sync::RwLock<T>,
    state: AtomicIsize,
}

/// Shared access to the value of a [`RwLock`], given back when the guard goes.
#[verifier::reject_recursive_types(T)]
pub struct RwLockReadGuard<'a, T> {
    lock: &'a RwLock<T>,
    value: std::sync::RwLockReadGuard<'a, T>,
}

/// Exclusive access to the value of a [`RwLock`], given back when the guard goes.
#[verifier::reject_recursive_types(T)]
pub struct RwLockWriteGuard<'a, T> {
    lock: &'a RwLock<T>,
    value: std::sync::RwLockWriteGuard<'a, T>,
}

impl<'a, T> RwLockReadGuard<'a, T> {
    /// The lock that this guard holds.
    pub closed spec fn origin(&self) -> &RwLock<T> {
        self.lock
    }
}

impl<'a, T> RwLockWriteGuard<'a, T> {
    /// The lock that this guard holds.
    pub closed spec fn origin(&self) -> &RwLock<T> {
        self.lock
    }
}

impl<T> RwLock<T> {
    /// The word of this lock.
    pub closed spec fn word_source(&self) -> AtomicIsize {
        self.state
    }

    /// A free lock around `value`: its word starts as the word of [`LockLedger::fresh`].
    pub fn new(value: T) -> (lock: RwLock<T>)
        ensures
            isize_at_start(lock.word_source()) == LockLedger::fresh().word,
    {
        RwLock { value: store_new(value), state: isize_new(0) }
    }

    /// Asks once for shared access: adds one reader to the word, as [`admit_reader`] decides.
    /// The answer is `None` while a writer holds the lock, and can be `None` while a write
    /// guard is just going.
    pub fn try_read(&self) -> (guard: Option<RwLockReadGuard<'_, T>>)
        ensures
            guard matches Some(g) ==> g.origin() == self,
    {
        let found = word_admit_reader(&self.state);
        let access = if found.is_ok() {
            store_try_read(&self.value)
        } else {
            None
        };
        self.share(found, access)
    }

    /// What a reader is left with whose request found the word as `found` says and whom the
    /// store answered with `access`: the guard, exactly where the word admitted the reader
    /// and the store gave access. Where the word admitted the reader and the store gave
    /// none, the reader is taken off the word again.
    fn share<'a>(
        &'a self,
        found: Result<isize, isize>,
        access: Option<std::sync::RwLockReadGuard<'a, T>>,
    ) -> (guard: Option<RwLockReadGuard<'a, T>>)
        ensures
            guard is Some <==> found is Ok && access is Some,
            guard matches Some(g) ==> g.origin() == self,
    {
        if found.is_err() {
            None
        } else {
            match access {
                Some(value) => Some(RwLockReadGuard { lock: self, value }),
                None => {
                    let _ = word_release_reader(&self.state);
                    None
                },
            }
        }
    }

    /// Asks once for exclusive access: swaps the word from `0` to `-1`. The answer is `None`
    /// while the lock is not free, and can be `None` while a guard is just going.
    pub fn try_write(&self) -> (guard: Option<RwLockWriteGuard<'_, T>>)
        ensures
            guard matches Some(g) ==> g.origin() == self,
    {
        let found = word_swap(&self.state, 0, -1);
        let access = if found.is_ok() {
            store_try_write(&self.value)
        } else {
            None
        };
        self.claim(found, access)
    }

    /// What a writer is left with whose swap of the word ended as `found` and whom the store
    /// answered with `access`: the guard, exactly where the swap took the word and the store
    /// gave access. Where the swap took the word and the store gave none, the word is freed
    /// again.
    fn claim<'a>(
        &'a self,
        found: Result<isize, isize>,
        access: Option<std::sync::RwLockWriteGuard<'a, T>>,
    ) -> (guard: Option<RwLockWriteGuard<'a, T>>)
        ensures
            guard is Some <==> found is Ok && access is Some,
            guard matches Some(g) ==> g.origin() == self,
    {
        if found.is_err() {
            None
        } else {
            match access {
                Some(value) => Some(RwLockWriteGuard { lock: self, value }),
                None => {
                    word_free(&self.state, 0);
                    None
                },
            }
        }
    }

    /// Asks for shared access until it is given, `attempts` times at most. The answer is
    /// `None` where a writer held the lock at every attempt.
    pub fn read(&self, attempts: usize) -> (guard: Option<RwLockReadGuard<'_, T>>)
        ensures
            attempts == 0 ==> guard is None,
            guard matches Some(g) ==> g.origin() == self,
    {
        let mut left: usize = attempts;
        while left > 0
            invariant
                left <= attempts,
            decreases left,
        {
            match self.try_read() {
                Some(guard) => {
                    return Some(guard);
                },
                None => {},
            }
            left = left - 1;
        }
        None
    }

    /// Asks for exclusive access until it is given, `attempts` times at most, with a hint to
    /// the processor after each refusal. The answer is `None` where the lock was not free
    /// at any attempt.
    pub fn write(&self, attempts: usize) -> (guard: Option<RwLockWriteGuard<'_, T>>)
        ensures
            attempts == 0 ==> guard is None,
            guard matches Some(g) ==> g.origin() == self,
    {
        let mut left: usize = attempts;
        while left > 0
            invariant
                left <= attempts,
            decreases left,
        {
            match self.try_write() {
                Some(guard) => {
                    return Some(guard);
                },
                None => {},
            }
            std::hint::spin_loop();
            left = left - 1;
        }
        None
    }
}

impl<T> std::ops::Deref for RwLockReadGuard<'_, T> {
    type Target = T;

    fn deref(&self) -> &Self::Target {
        shared_value(&self.value)
    }
}

impl<T> Drop for RwLockReadGuard<'_, T> {
    /// Takes this guard off the word, as [`release_reader`] decides. A word that counts no
    /// reader is broken: the guard writes nothing then. [`law_readers_exclude_writer`]
    /// shows that no guard finds such a word, in whatever order threads came.
    fn drop(&mut self)
        opens_invariants none
        no_unwind
    {
        let _ = word_release_reader(&self.lock.state);
    }
}

impl<T> std::ops::Deref for RwLockWriteGuard<'_, T> {
    type Target = T;

    fn deref(&self) -> &Self::Target {
        exclusive_value(&self.value)
    }
}

impl<T> std::ops::DerefMut for RwLockWriteGuard<'_, T> {
    fn deref_mut(&mut self) -> &mut Self::Target {
        exclusive_value_mut(&mut self.value)
    }
}

impl<T> Drop for RwLockWriteGuard<'_, T> {
    /// Stores the word of a free lock.
    fn drop(&mut self)
        opens_invariants none
        no_unwind
    {
        word_free(&self.lock.state, 0);
    }
}

/// What can happen to one lock.
pub enum LockEvent {
    /// A thread asks once for shared access.
    Read,
    /// A thread asks once for exclusive access.
    Write,
    /// A live read guard goes.
    DropRead,
    /// A live write guard goes.
    DropWrite,
}

/// One lock as a whole: its word, and the guards that are live.
pub struct LockLedger {
    pub word: int,
    pub readers: nat,
    pub writers: nat,
}

impl LockLedger {
    /// The lock as `new` leaves it.
    pub open spec fn fresh() -> LockLedger {
        LockLedger { word: free_word(), readers: 0, writers: 0 }
    }

    /// Whether `event` can happen: a guard has to be live to go.
    pub open spec fn enabled(self, event: LockEvent) -> bool {
        match event {
            LockEvent::Read | LockEvent::Write => true,
            LockEvent::DropRead => self.readers >= 1,
            LockEvent::DropWrite => self.writers >= 1,
        }
    }

    /// Whether `event` is a request that the lock answers with a guard.
    pub open spec fn granted(self, event: LockEvent) -> bool {
        match event {
            LockEvent::Read => word_after_read(self.word) is Some,
            LockEvent::Write => word_after_write(self.word) is Some,
            _ => false,
        }
    }

    /// The lock after `event`, each event being one step on the word that nothing comes
    /// between. A request that is refused changes nothing, and a read guard that is not
    /// counted in the word leaves the word as it is.
    pub open spec fn step(self, event: LockEvent) -> LockLedger {
        match event {
            LockEvent::Read => match word_after_read(self.word) {
                Some(word) => LockLedger {
                    word,
                    readers: self.readers + 1,
                    writers: self.writers,
                },
                None => self,
            },
            LockEvent::Write => match word_after_write(self.word) {
                Some(word) => LockLedger {
                    word,
                    readers: self.readers,
                    writers: self.writers + 1,
                },
                None => self,
            },
            LockEvent::DropRead => LockLedger {
                word: match word_after_read_release(self.word) {
                    Some(word) => word,
                    None => self.word,
                },
                readers: (self.readers - 1) as nat,
                writers: self.writers,
            },
            LockEvent::DropWrite => LockLedger {
                word: word_after_write_release(),
                readers: self.readers,
                writers: (self.writers - 1) as nat,
            },
        }
    }

    /// The lock after `events`, one after the other, from a fresh lock.
    pub open spec fn run(events: Seq<LockEvent>) -> LockLedger
        decreases events.len(),
    {
        if events.len() == 0 {
            LockLedger::fresh()
        } else {
            LockLedger::run(events.drop_last()).step(events.last())
        }
    }

    /// Whether each of `events` can happen when its turn comes.
    pub open spec fn possible(events: Seq<LockEvent>) -> bool
        decreases events.len(),
    {
        events.len() == 0 || (LockLedger::possible(events.drop_last()) && LockLedger::run(
            events.drop_last(),
        ).enabled(events.last()))
    }

    /// The word tells the live guards: `-1` stands for one write guard and no read guard,
    /// a word from zero up for that many read guards and no write guard.
    pub open spec fn consistent(self) -> bool {
        ||| self.word == -1 && self.writers == 1 && self.readers == 0
        ||| 0 <= self.word <= isize::MAX && self.readers == self.word && self.writers == 0
    }
}

/// Every event that can happen keeps a consistent lock consistent.
pub proof fn lemma_lock_step_consistent(ledger: LockLedger, event: LockEvent)
    requires
        ledger.consistent(),
        ledger.enabled(event),
    ensures
        ledger.step(event).consistent(),
{
}

/// In whatever order threads ask for the lock and let their guards go, a write guard and a
/// read guard are never live together, nor two write guards; and a read guard that goes
/// finds a word that counts it.
pub proof fn law_readers_exclude_writer(events: Seq<LockEvent>)
    requires
        LockLedger::possible(events),
    ensures
        LockLedger::run(events).consistent(),
        LockLedger::run(events).writers <= 1,
        !(LockLedger::run(events).writers >= 1 && LockLedger::run(events).readers >= 1),
        LockLedger::run(events).enabled(LockEvent::DropRead) ==> word_after_read_release(
            LockLedger::run(events).word,
        ) is Some,
    decreases events.len(),
{
    if events.len() > 0 {
        law_readers_exclude_writer(events.drop_last());
        lemma_lock_step_consistent(LockLedger::run(events.drop_last()), events.last());
    }
}

/// In whatever order threads ask for the lock and let their guards go: readers are admitted
/// beside readers, a writer only to a lock without guards, and nobody beside a writer.
pub proof fn law_admission(events: Seq<LockEvent>)
    requires
        LockLedger::possible(events),
    ensures
        LockLedger::run(events).granted(LockEvent::Write) <==> LockLedger::run(events).readers
            == 0 && LockLedger::run(events).writers == 0,
        LockLedger::run(events).granted(LockEvent::Read) <==> LockLedger::run(events).writers
            == 0 && LockLedger::run(events).readers < isize::MAX,
{
    law_readers_exclude_writer(events);
}

} // verus!
