use vstd::prelude::*;

verus! {

/// The owner count of a block that its first handle has just made.
pub open spec fn fresh_count() -> int {
    1
}

/// The owner count after one more handle has been made, or `None` where the count is
/// broken and is left as it is: a count of zero has no handle that could be cloned, and a
/// count at the machine limit cannot grow.
pub open spec fn count_after_clone(count: int) -> Option<int> {
    if 1 <= count < usize::MAX {
        Some(count + 1)
    } else {
        None
    }
}

/// The owner count after one handle has gone, or `None` where the count is broken and is
/// left as it is: a count of zero has no handle that could go.
pub open spec fn count_after_drop(count: int) -> Option<int> {
    if count >= 1 {
        Some(count - 1)
    } else {
        None
    }
}

/// Whether the handle that found `count` owners as it went was the last of them.
pub open spec fn last_owner(count: int) -> bool {
    count == 1
}

/// Whether a handle that is cloned while the count is `count` is counted.
pub open spec fn counts_clone(count: usize) -> bool {
    count_after_clone(count as int) is Some
}

/// Whether a handle that goes while the count is `count` is counted in it.
pub open spec fn counts_drop(count: usize) -> bool {
    count_after_drop(count as int) is Some
}

/// Decides the count to store when a handle is cloned. A broken count is told apart.
pub fn incremented(count: usize) -> (next: Option<usize>)
    ensures
        next is Some <==> count_after_clone(count as int) is Some,
        next matches Some(n) ==> count_after_clone(count as int) == Some(n as int),
{
    if 1 <= count && count < usize::MAX {
        Some(count + 1)
    } else {
        None
    }
}

/// Decides the count to store when a handle goes. A broken count is told apart.
pub fn decremented(count: usize) -> (next: Option<usize>)
    ensures
        next is Some <==> count_after_drop(count as int) is Some,
        next matches Some(n) ==> count_after_drop(count as int) == Some(n as int),
    opens_invariants none
    no_unwind
{
    if count >= 1 {
        Some(count - 1)
    } else {
        None
    }
}

/// Whether a handle that found `count` owners as it went has to destroy the value.
pub fn is_last_owner(count: usize) -> (last: bool)
    ensures
        last == last_owner(count as int),
    opens_invariants none
    no_unwind
{
    count == 1
}

/// What can happen to the handles of one block.
pub enum OwnerEvent {
    /// A live handle is cloned.
    Clone,
    /// A live handle goes.
    Drop,
}

/// One block as a whole: the count it keeps, the handles that are live, and how often its
/// value has been destroyed.
pub struct OwnerLedger {
    pub count: int,
    pub handles: nat,
    pub destroyed: nat,
}

impl OwnerLedger {
    /// The block as the first handle finds it.
    pub open spec fn fresh() -> OwnerLedger {
        OwnerLedger { count: fresh_count(), handles: 1, destroyed: 0 }
    }

    /// Whether `event` can happen: both need a live handle, and no more handles can be live
    /// than the machine can count.
    pub open spec fn enabled(self, event: OwnerEvent) -> bool {
        match event {
            OwnerEvent::Clone => 1 <= self.handles < usize::MAX,
            OwnerEvent::Drop => 1 <= self.handles,
        }
    }

    /// The block after `event`. A broken count is left as it is.
    pub open spec fn step(self, event: OwnerEvent) -> OwnerLedger {
        match event {
            OwnerEvent::Clone => OwnerLedger {
                count: match count_after_clone(self.count) {
                    Some(count) => count,
                    None => self.count,
                },
                handles: self.handles + 1,
                destroyed: self.destroyed,
            },
            OwnerEvent::Drop => OwnerLedger {
                count: match count_after_drop(self.count) {
                    Some(count) => count,
                    None => self.count,
                },
                handles: (self.handles - 1) as nat,
                destroyed: if last_owner(self.count) {
                    self.destroyed + 1
                } else {
                    self.destroyed
                },
            },
        }
    }

    /// The block after `events`, one after the other, from a fresh block.
    pub open spec fn run(events: Seq<OwnerEvent>) -> OwnerLedger
        decreases events.len(),
    {
        if events.len() == 0 {
            OwnerLedger::fresh()
        } else {
            OwnerLedger::run(events.drop_last()).step(events.last())
        }
    }

    /// Whether each of `events` can happen when its turn comes.
    pub open spec fn possible(events: Seq<OwnerEvent>) -> bool
        decreases events.len(),
    {
        events.len() == 0 || (OwnerLedger::possible(events.drop_last()) && OwnerLedger::run(
            events.drop_last(),
        ).enabled(events.last()))
    }

    /// The count is the number of live handles, and the value has been destroyed once if
    /// no handle is left and never otherwise.
    pub open spec fn consistent(self) -> bool {
        &&& self.count == self.handles
        &&& self.handles <= usize::MAX
        &&& self.destroyed == if self.handles == 0 {
            1nat
        } else {
            0nat
        }
    }
}

/// Every event that can happen keeps a consistent block consistent.
pub proof fn lemma_step_consistent(ledger: OwnerLedger, event: OwnerEvent)
    requires
        ledger.consistent(),
        ledger.enabled(event),
    ensures
        ledger.step(event).consistent(),
{
}

/// Whatever has happened to the handles of a block, in whatever order, the value is
/// destroyed once when the last handle goes, and neither before nor again: the count is
/// the number of live handles throughout, so no handle ever finds a broken count.
pub proof fn law_destroyed_once(events: Seq<OwnerEvent>)
    requires
        OwnerLedger::possible(events),
    ensures
        OwnerLedger::run(events).consistent(),
        OwnerLedger::run(events).destroyed <= 1,
        OwnerLedger::run(events).destroyed == 1 <==> OwnerLedger::run(events).handles == 0,
        OwnerLedger::run(events).handles >= 1 ==> OwnerLedger::run(events).count >= 1,
        OwnerLedger::run(events).enabled(OwnerEvent::Clone) ==> count_after_clone(
            OwnerLedger::run(events).count,
        ) is Some,
        OwnerLedger::run(events).enabled(OwnerEvent::Drop) ==> count_after_drop(
            OwnerLedger::run(events).count,
        ) is Some,
    decreases events.len(),
{
    if events.len() > 0 {
        law_destroyed_once(events.drop_last());
        lemma_step_consistent(OwnerLedger::run(events.drop_last()), events.last());
    }
}

} // verus!
