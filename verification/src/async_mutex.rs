use crate::payload::exclusive_value;
use crate::payload::exclusive_value_mut;
use crate::payload::store_new;
use crate::payload::store_try_write;
use vstd::prelude::*;

verus! {

/// `tokio::sync::Semaphore`: a counter of permits that tasks can wait on.
#[verifier::external_type_specification]
#[verifier::external_body]
pub struct ExSemaphore(tokio::sync::Semaphore);

/// `tokio::sync::SemaphorePermit`: one permit, which goes back to its semaphore when it is
/// dropped.
#[verifier::external_type_specification]
#[verifier::external_body]
pub struct ExSemaphorePermit<'a>(tokio::sync::SemaphorePermit<'a>);

/// `tokio::sync::AcquireError`: the wait for a permit ended because the semaphore was shut
/// down.
#[verifier::external_type_specification]
#[verifier::external_body]
pub struct ExAcquireError(tokio::sync::AcquireError);

/// `tokio::sync::TryAcquireError`, with its two variants: `Closed` where the semaphore was
/// shut down, `NoPermits` where every permit is taken.
#[verifier::external_type_specification]
pub struct ExTryAcquireError(tokio::sync::TryAcquireError);

/// The number of permits that a semaphore was made with. It says nothing of the permits
/// that the semaphore has left at a given moment.
pub uninterp spec fn permits_at_start(semaphore: tokio::sync::Semaphore) -> nat;

/// `tokio::sync::Semaphore::new`: a semaphore that starts with `permits` permits. It panics
/// above `Semaphore::MAX_PERMITS`, which is the largest `usize` with its three top bits
/// cleared.
#[verifier::external_body]
fn semaphore_new(permits: usize) -> (semaphore: tokio::sync::Semaphore)
    requires
        permits <= usize::MAX / 8,
    ensures
        permits_at_start(semaphore) == permits,
{
    tokio::sync::Semaphore::new(permits)
}

/// `tokio::sync::Semaphore::try_acquire`: one permit, or why none was given. The call does
/// not wait. Nothing is claimed of the result.
#[verifier::external_body]
fn semaphore_try_acquire(semaphore: &tokio::sync::Semaphore) -> (permit: Result<
    tokio::sync::SemaphorePermit<'_>,
    tokio::sync::TryAcquireError,
>) {
    semaphore.try_acquire()
}

/// Why a lock was not given.
#[derive(Debug, Clone, Copy, PartialEq, Eq, Structural)]
pub enum LockError {
    /// The source of permits has been shut down: no lock will be given again.
    Closed,
}

/// A lock for one holder at a time among tasks that take turns on a scheduler.
///
/// The lock is a semaphore with one permit, which the guard holds while it is live. Waiting
/// for the permit is the only point at which a task gives way, and it lies outside this
/// type: the waiting task awaits a permit of [`AsyncMutex::permits`] and hands what it got
/// to [`AsyncMutex::enter`]. [`PermitLedger`] describes the mutex as a whole, and the laws
/// of [`crate::exclusion`] say what its guards are good for.
#[verifier::reject_recursive_types(T)]
pub struct AsyncMutex<T> {
    value: std::sync::RwLock<T>,
    locked: tokio::sync::Semaphore,
}

/// Exclusive access to the value of an [`AsyncMutex`]. The permit goes back to the
/// semaphore when the guard goes.
#[verifier::reject_recursive_types(T)]
pub struct MutexGuard<'a, T> {
    mutex: &'a AsyncMutex<T>,
    value: std::sync::RwLockWriteGuard<'a, T>,
    permit: tokio::sync::SemaphorePermit<'a>,
}

impl<'a, T> MutexGuard<'a, T> {
    /// The mutex that this guard holds.
    pub closed spec fn origin(&self) -> &AsyncMutex<T> {
        self.mutex
    }
}

/// What a refusal of a permit means to the task that asked: `None` where the permit is
/// with another task for now, the error where no permit will be given again.
pub open spec fn refusal_of(refused: tokio::sync::TryAcquireError) -> Option<LockError> {
    match refused {
        tokio::sync::TryAcquireError::Closed => Some(LockError::Closed),
        tokio::sync::TryAcquireError::NoPermits => None,
    }
}

/// Tells a lasting refusal of a permit from a passing one.
pub fn refusal(refused: tokio::sync::TryAcquireError) -> (error: Option<LockError>)
    ensures
        error == refusal_of(refused),
{
    match refused {
        tokio::sync::TryAcquireError::Closed => Some(LockError::Closed),
        tokio::sync::TryAcquireError::NoPermits => None,
    }
}

impl<T> AsyncMutex<T> {
    /// The semaphore of this mutex.
    pub closed spec fn permit_source(&self) -> &tokio::sync::Semaphore {
        &self.locked
    }

    /// A free mutex around `value`: its semaphore starts with the one permit that stands for
    /// the lock, as [`PermitLedger::fresh`] has it.
    pub fn new(value: T) -> (mutex: AsyncMutex<T>)
        ensures
            permits_at_start(*mutex.permit_source()) == PermitLedger::fresh().permits,
    {
        AsyncMutex { value: store_new(value), locked: semaphore_new(1) }
    }

    /// The semaphore whose one permit stands for the lock.
    pub fn permits(&self) -> (semaphore: &tokio::sync::Semaphore)
        ensures
            semaphore == self.permit_source(),
    {
        &self.locked
    }

    /// Takes the lock with the permit that a task has waited for. The lock is refused for
    /// good exactly where the wait ended without a permit.
    pub fn enter<'a>(
        &'a self,
        acquired: Result<tokio::sync::SemaphorePermit<'a>, tokio::sync::AcquireError>,
    ) -> (guard: Result<Option<MutexGuard<'a, T>>, LockError>)
        ensures
            acquired is Err <==> guard == Err::<Option<MutexGuard<'a, T>>, LockError>(
                LockError::Closed,
            ),
            guard matches Ok(Some(g)) ==> g.origin() == self,
    {
        match acquired {
            Err(_) => Err(LockError::Closed),
            Ok(permit) => {
                let access = store_try_write(&self.value);
                Ok(self.hold(permit, access))
            },
        }
    }

    /// Asks once for the lock, without waiting. The answer is `Ok(None)` while a guard is
    /// live.
    pub fn try_lock(&self) -> (guard: Result<Option<MutexGuard<'_, T>>, LockError>)
        ensures
            guard matches Ok(Some(g)) ==> g.origin() == self,
    {
        match semaphore_try_acquire(&self.locked) {
            Ok(permit) => {
                let access = store_try_write(&self.value);
                Ok(self.hold(permit, access))
            },
            Err(refused) => {
                match refusal(refused) {
                    Some(error) => Err(error),
                    None => Ok(None),
                }
            },
        }
    }

    /// What the holder of `permit` is left with whom the store answered with `access`: the
    /// guard, exactly where the store gave access. Where it gave none, the permit goes back
    /// to the semaphore.
    fn hold<'a>(
        &'a self,
        permit: tokio::sync::SemaphorePermit<'a>,
        access: Option<std::sync::RwLockWriteGuard<'a, T>>,
    ) -> (guard: Option<MutexGuard<'a, T>>)
        ensures
            guard is Some <==> access is Some,
            guard matches Some(g) ==> g.origin() == self,
    {
        match access {
            Some(value) => Some(MutexGuard { mutex: self, value, permit }),
            None => None,
        }
    }
}

impl<T> std::ops::Deref for MutexGuard<'_, T> {
    type Target = T;

    fn deref(&self) -> &Self::Target {
        exclusive_value(&self.value)
    }
}

impl<T> std::ops::DerefMut for MutexGuard<'_, T> {
    fn deref_mut(&mut self) -> &mut Self::Target {
        exclusive_value_mut(&mut self.value)
    }
}

/// What can happen to the permit of one mutex.
pub enum PermitEvent {
    /// A task asks for the permit.
    Acquire,
    /// A live guard goes, and its permit with it.
    Drop,
    /// The semaphore is shut down.
    Close,
}

/// One mutex as a whole: the permits that its semaphore has left, the guards that are
/// live, and whether the semaphore has been shut down.
pub struct PermitLedger {
    pub permits: nat,
    pub holders: nat,
    pub closed: bool,
}

impl PermitLedger {
    /// The mutex as `new` leaves it: one permit, and nobody holds it.
    pub open spec fn fresh() -> PermitLedger {
        PermitLedger { permits: 1, holders: 0, closed: false }
    }

    /// Whether `event` can happen: a guard has to be live to go.
    pub open spec fn enabled(self, event: PermitEvent) -> bool {
        match event {
            PermitEvent::Acquire | PermitEvent::Close => true,
            PermitEvent::Drop => self.holders >= 1,
        }
    }

    /// Whether a task that asks now is given the permit.
    pub open spec fn granted(self) -> bool {
        !self.closed && self.permits >= 1
    }

    /// Whether a task that asks now is refused for good.
    pub open spec fn refused_for_good(self) -> bool {
        self.closed
    }

    /// The mutex after `event`. A request that is not granted changes nothing.
    pub open spec fn step(self, event: PermitEvent) -> PermitLedger {
        match event {
            PermitEvent::Acquire => if self.granted() {
                PermitLedger {
                    permits: (self.permits - 1) as nat,
                    holders: self.holders + 1,
                    closed: self.closed,
                }
            } else {
                self
            },
            PermitEvent::Drop => PermitLedger {
                permits: self.permits + 1,
                holders: (self.holders - 1) as nat,
                closed: self.closed,
            },
            PermitEvent::Close => PermitLedger {
                permits: self.permits,
                holders: self.holders,
                closed: true,
            },
        }
    }

    /// The mutex after `events`, one after the other, from a fresh mutex.
    pub open spec fn run(events: Seq<PermitEvent>) -> PermitLedger
        decreases events.len(),
    {
        if events.len() == 0 {
            PermitLedger::fresh()
        } else {
            PermitLedger::run(events.drop_last()).step(events.last())
        }
    }

    /// Whether each of `events` can happen when its turn comes.
    pub open spec fn possible(events: Seq<PermitEvent>) -> bool
        decreases events.len(),
    {
        events.len() == 0 || (PermitLedger::possible(events.drop_last()) && PermitLedger::run(
            events.drop_last(),
        ).enabled(events.last()))
    }
}

/// However tasks ask for the permit and let it go, the permit is never lost nor doubled: it
/// is either with the semaphore or with one guard. So at most one task holds a guard at a
/// time, and a task that asks is served exactly when nobody holds one and the semaphore
/// has not been shut down.
pub proof fn law_permit_conservation(events: Seq<PermitEvent>)
    requires
        PermitLedger::possible(events),
    ensures
        PermitLedger::run(events).permits + PermitLedger::run(events).holders == 1,
        PermitLedger::run(events).holders <= 1,
        PermitLedger::run(events).granted() <==> PermitLedger::run(events).holders == 0
            && !PermitLedger::run(events).closed,
    decreases events.len(),
{
    if events.len() > 0 {
        law_permit_conservation(events.drop_last());
    }
}

/// Once the semaphore has been shut down, every later request is refused for good.
pub proof fn law_closed_for_good(events: Seq<PermitEvent>, later: Seq<PermitEvent>)
    requires
        PermitLedger::run(events).closed,
    ensures
        PermitLedger::run(events + later).refused_for_good(),
        !PermitLedger::run(events + later).granted(),
    decreases later.len(),
{
    if later.len() == 0 {
        assert(events + later == events);
    } else {
        law_closed_for_good(events, later.drop_last());
        assert((events + later).drop_last() == events + later.drop_last());
        assert((events + later).last() == later.last());
    }
}

} // verus!
