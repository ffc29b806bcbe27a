use vstd::prelude::*;

verus! {

/// The word of a free lock.
pub open spec fn free_flag() -> bool {
    false
}

/// The lock word after a caller has asked for the lock, or `None` where the caller is
/// refused: while the word is taken.
pub open spec fn flag_after_acquire(locked: bool) -> Option<bool> {
    if locked == free_flag() {
        Some(!free_flag())
    } else {
        None
    }
}

/// The lock word after the guard has gone.
pub open spec fn flag_after_release() -> bool {
    free_flag()
}

/// Where a thread stands with a lock for one holder.
pub enum Phase {
    /// It holds no guard.
    Idle,
    /// It holds the guard.
    Holding,
    /// It holds the guard and has read this value through it, to write the next one back.
    Loaded(int),
}

/// What the threads around one lock can do, each in one step that nothing comes between.
/// The number names the thread.
pub enum ExclusionEvent {
    /// The thread asks once for the lock: it swaps the lock word from free to taken, which
    /// fails where the word is taken.
    Acquire(nat),
    /// The thread reads the value through its guard.
    Load(nat),
    /// The thread writes back, through its guard, one more than it read.
    Store(nat),
    /// The thread lets its guard go, which frees the lock word.
    Release(nat),
}

/// One lock as a whole: its word, the value it guards, and where each thread stands.
pub struct ExclusionLedger {
    pub locked: bool,
    pub value: int,
    pub phases: Map<nat, Phase>,
}

impl ExclusionLedger {
    /// Where `thread` stands. A thread that has not met the lock yet is idle.
    pub open spec fn phase(self, thread: nat) -> Phase {
        if self.phases.dom().contains(thread) {
            self.phases[thread]
        } else {
            Phase::Idle
        }
    }

    /// Whether `thread` holds a guard.
    pub open spec fn holds(self, thread: nat) -> bool {
        !(self.phase(thread) is Idle)
    }

    /// Whether what `thread` has read through its guard, if anything, is still the value.
    pub open spec fn fresh_read(self, thread: nat) -> bool {
        self.phase(thread) matches Phase::Loaded(read) ==> read == self.value
    }

    /// A free lock around `value`.
    pub open spec fn fresh(value: int) -> ExclusionLedger {
        ExclusionLedger { locked: free_flag(), value, phases: Map::empty() }
    }

    /// Whether `event` can happen. A thread asks for the lock only while it holds no guard;
    /// it reaches the value only through a guard, and writes only what it has read; it
    /// lets go only of a guard that it holds, with no write outstanding.
    pub open spec fn enabled(self, event: ExclusionEvent) -> bool {
        match event {
            ExclusionEvent::Acquire(thread) => self.phase(thread) is Idle,
            ExclusionEvent::Load(thread) => self.phase(thread) is Holding,
            ExclusionEvent::Store(thread) => self.phase(thread) is Loaded,
            ExclusionEvent::Release(thread) => self.phase(thread) is Holding,
        }
    }

    /// The lock after `event`. A request that finds the word taken changes nothing.
    pub open spec fn step(self, event: ExclusionEvent) -> ExclusionLedger {
        match event {
            ExclusionEvent::Acquire(thread) => match flag_after_acquire(self.locked) {
                Some(locked) => ExclusionLedger {
                    locked,
                    value: self.value,
                    phases: self.phases.insert(thread, Phase::Holding),
                },
                None => self,
            },
            ExclusionEvent::Load(thread) => ExclusionLedger {
                locked: self.locked,
                value: self.value,
                phases: self.phases.insert(thread, Phase::Loaded(self.value)),
            },
            ExclusionEvent::Store(thread) => ExclusionLedger {
                locked: self.locked,
                value: match self.phase(thread) {
                    Phase::Loaded(read) => read + 1,
                    _ => self.value,
                },
                phases: self.phases.insert(thread, Phase::Holding),
            },
            ExclusionEvent::Release(thread) => ExclusionLedger {
                locked: flag_after_release(),
                value: self.value,
                phases: self.phases.insert(thread, Phase::Idle),
            },
        }
    }

    /// The lock after `events`, one after the other, from a free lock around `value`.
    pub open spec fn run(value: int, events: Seq<ExclusionEvent>) -> ExclusionLedger
        decreases events.len(),
    {
        if events.len() == 0 {
            ExclusionLedger::fresh(value)
        } else {
            ExclusionLedger::run(value, events.drop_last()).step(events.last())
        }
    }

    /// Whether each of `events` can happen when its turn comes.
    pub open spec fn possible(value: int, events: Seq<ExclusionEvent>) -> bool
        decreases events.len(),
    {
        events.len() == 0 || (ExclusionLedger::possible(value, events.drop_last())
            && ExclusionLedger::run(value, events.drop_last()).enabled(events.last()))
    }

    /// At most one thread holds a guard, the word is taken while one does, and what a
    /// holder has read is still the value.
    pub open spec fn consistent(self) -> bool {
        &&& forall|thread: nat| #[trigger] self.holds(thread) ==> self.locked
        &&& forall|one: nat, other: nat|
            #[trigger] self.holds(one) && #[trigger] self.holds(other) ==> one == other
        &&& forall|thread: nat| #[trigger] self.fresh_read(thread)
    }
}

/// The number of writes among `events`.
pub open spec fn stores(events: Seq<ExclusionEvent>) -> nat
    decreases events.len(),
{
    if events.len() == 0 {
        0
    } else if events.last() is Store {
        stores(events.drop_last()) + 1
    } else {
        stores(events.drop_last())
    }
}

/// Every event that can happen keeps a consistent lock consistent, and only a write changes
/// the value, by one.
pub proof fn lemma_exclusion_step(ledger: ExclusionLedger, event: ExclusionEvent)
    requires
        ledger.consistent(),
        ledger.enabled(event),
    ensures
        ledger.step(event).consistent(),
        ledger.step(event).value == if event is Store {
            ledger.value + 1
        } else {
            ledger.value
        },
{
    let next = ledger.step(event);
    if event is Acquire && ledger.locked {
        assert(next == ledger);
    } else {
        let thread = match event {
            ExclusionEvent::Acquire(thread) => thread,
            ExclusionEvent::Load(thread) => thread,
            ExclusionEvent::Store(thread) => thread,
            ExclusionEvent::Release(thread) => thread,
        };
        assert(ledger.fresh_read(thread));
        assert(!(event is Acquire) ==> ledger.holds(thread));
        assert forall|other: nat| other != thread implies !#[trigger] next.holds(other) by {
            assert(next.phase(other) == ledger.phase(other));
            if ledger.holds(other) {
                assert(ledger.locked);
            }
        }
        assert forall|other: nat| #[trigger] next.fresh_read(other) by {
            if other != thread {
                assert(!next.holds(other));
            }
        }
    }
}

/// However the steps of any number of threads fall into one order, no two of them hold a
/// guard at the same time.
pub proof fn law_mutual_exclusion(value: int, events: Seq<ExclusionEvent>, one: nat, other: nat)
    requires
        ExclusionLedger::possible(value, events),
        ExclusionLedger::run(value, events).holds(one),
        ExclusionLedger::run(value, events).holds(other),
    ensures
        one == other,
{
    law_no_lost_update(value, events);
}

/// However the steps of any number of threads fall into one order, no write is lost: the
/// value has grown by one for each write that was made through a guard.
pub proof fn law_no_lost_update(value: int, events: Seq<ExclusionEvent>)
    requires
        ExclusionLedger::possible(value, events),
    ensures
        ExclusionLedger::run(value, events).consistent(),
        ExclusionLedger::run(value, events).value == value + stores(events),
    decreases events.len(),
{
    if events.len() > 0 {
        law_no_lost_update(value, events.drop_last());
        lemma_exclusion_step(ExclusionLedger::run(value, events.drop_last()), events.last());
    }
}

/// Where `threads` threads have made `rounds` writes each through the guard, in whatever
/// order their steps fell, the value has grown by `threads` times `rounds`.
pub proof fn law_equal_shares_add_up(
    value: int,
    events: Seq<ExclusionEvent>,
    threads: nat,
    rounds: nat,
)
    requires
        ExclusionLedger::possible(value, events),
        stores(events) == threads * rounds,
    ensures
        ExclusionLedger::run(value, events).value == value + threads * rounds,
{
    law_no_lost_update(value, events);
}

} // verus!
