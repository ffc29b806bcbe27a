//! Shared ownership, interior mutability and locks, each built from its own bookkeeping.
//!
//! For one thread: [`cell::Cell`] replaces and copies a whole value, [`rc::Rc`] counts the
//! owners of a value, and [`refcell::RefCell`] checks borrows while the program runs. For
//! several threads: [`arc::Arc`] counts owners atomically, [`mutex::Mutex`] spins,
//! [`futex_mutex::FutexMutex`] sleeps, and [`rwlock::RwLock`] admits many readers or one
//! writer. For tasks on a scheduler: [`async_mutex::AsyncMutex`] holds a permit.
//!
//! Each type comes with a description of itself as a whole: its state together with the
//! handles or guards that are live, and the steps that the state can take. Where a type
//! reads its state and writes the next one, a small function of the state that it finds
//! decides the step: so do the borrows of `RefCell`, the readers of `RwLock` and the counts
//! of `Rc` and `Arc`. Where a type swaps its word in one go, the operands of the swap are
//! held to a step of the description: so do `Mutex`, `FutexMutex` and the writers of
//! `RwLock`. The laws beside the descriptions hold for every order in which the steps of
//! any number of callers can fall.
//!
//! No request waits without bound. A lock is asked a given number of times and answers
//! `None` when it was taken each time.

pub mod arc;
pub mod async_mutex;
pub mod atomics;
pub mod cell;
pub mod exclusion;
pub mod futex_mutex;
pub mod mutex;
pub mod owners;
pub mod payload;
pub mod rc;
pub mod refcell;
pub mod rwlock;
