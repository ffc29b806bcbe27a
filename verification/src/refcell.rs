use crate::cell::Cell;
use crate::payload::exclusive_value;
use crate::payload::exclusive_value_mut;
use crate::payload::shared_value;
use crate::payload::store_new;
use crate::payload::store_try_read;
use crate::payload::store_try_write;
use vstd::prelude::*;

verus! {

/// The borrow state of a [`RefCell`].
#[derive(Debug, Copy, Clone)]
pub enum RefState {
    /// This many read guards are live.
    Shared(usize),
    /// One write guard is live.
    Exclusive,
    /// No guard is live.
    Unshared,
}

impl RefState {
    /// The number of read guards that the state accounts for.
    pub open spec fn readers(self) -> nat {
        match self {
            RefState::Shared(n) => n as nat,
            _ => 0,
        }
    }

    /// The number of write guards that the state accounts for.
    pub open spec fn writers(self) -> nat {
        match self {
            RefState::Exclusive => 1,
            _ => 0,
        }
    }

    /// `Shared` always counts at least one reader.
    pub open spec fn legal(self) -> bool {
        self matches RefState::Shared(n) ==> n >= 1
    }

    /// The state after a read borrow, or `None` where the borrow is refused: while a write
    /// guard is live, and when the reader count cannot grow any further.
    pub open spec fn after_borrow(self) -> Option<RefState> {
        match self {
            RefState::Exclusive => None,
            RefState::Shared(n) => if n < usize::MAX {
                Some(RefState::Shared((n + 1) as usize))
            } else {
                None
            },
            RefState::Unshared => Some(RefState::Shared(1)),
        }
    }

    /// The state after a write borrow, or `None` where the borrow is refused: while any guard
    /// is live.
    pub open spec fn after_borrow_mut(self) -> Option<RefState> {
        match self {
            RefState::Unshared => Some(RefState::Exclusive),
            _ => None,
        }
    }

    /// The state after a read guard has gone, or `None` where the state accounts for no read
    /// guard at all.
    pub open spec fn after_read_release(self) -> Option<RefState> {
        match self {
            RefState::Shared(n) => if n == 1 {
                Some(RefState::Unshared)
            } else if n > 1 {
                Some(RefState::Shared((n - 1) as usize))
            } else {
                None
            },
            _ => None,
        }
    }

    /// The state after a write guard has gone.
    pub open spec fn after_write_release(self) -> RefState {
        RefState::Unshared
    }

    /// Decides a read borrow in this state.
    pub fn admit_reader(self) -> (next: Option<RefState>)
        ensures
            next == self.after_borrow(),
        opens_invariants none
        no_unwind
    {
        match self {
            RefState::Exclusive => None,
            RefState::Shared(ref_count) => {
                if ref_count < usize::MAX {
                    Some(RefState::Shared(ref_count + 1))
                } else {
                    None
                }
            },
            RefState::Unshared => Some(RefState::Shared(1)),
        }
    }

    /// Decides a write borrow in this state.
    pub fn admit_writer(self) -> (next: Option<RefState>)
        ensures
            next == self.after_borrow_mut(),
        opens_invariants none
        no_unwind
    {
        match self {
            RefState::Exclusive | RefState::Shared(_) => None,
            RefState::Unshared => Some(RefState::Exclusive),
        }
    }

    /// The state that the end of a read guard leaves behind.
    pub fn release_reader(self) -> (next: Option<RefState>)
        ensures
            next == self.after_read_release(),
        opens_invariants none
        no_unwind
    {
        match self {
            RefState::Exclusive | RefState::Unshared => None,
            RefState::Shared(ref_count) => {
                if ref_count == 1 {
                    Some(RefState::Unshared)
                } else if ref_count > 1 {
                    Some(RefState::Shared(ref_count - 1))
                } else {
                    None
                }
            },
        }
    }

    /// The state that the end of a write guard leaves behind.
    pub fn release_writer(self) -> (next: RefState)
        ensures
            next == self.after_write_release(),
        opens_invariants none
        no_unwind
    {
        RefState::Unshared
    }
}

/// A mutable memory location whose borrow rules are checked while the program runs. A
/// borrow that would break them is answered with `None`.
///
/// The cell is for one thread only.
#[verifier::reject_recursive_types(T)]
pub struct RefCell<T> {
    value: std::sync::RwLock<T>,
    state: Cell<RefState>,
}

/// Shared access to the value of a [`RefCell`], given back when the guard goes.
#[verifier::reject_recursive_types(T)]
pub struct Ref<'refcell, T> {
    cell: &'refcell RefCell<T>,
    value: std::sync::RwLockReadGuard<'refcell, T>,
}

/// Exclusive access to the value of a [`RefCell`], given back when the guard goes.
#[verifier::reject_recursive_types(T)]
pub struct RefMut<'refcell, T> {
    cell: &'refcell RefCell<T>,
    value: std::sync::RwLockWriteGuard<'refcell, T>,
}

impl<'refcell, T> Ref<'refcell, T> {
    /// The cell that this guard borrows from.
    pub closed spec fn origin(&self) -> &RefCell<T> {
        self.cell
    }
}

impl<'refcell, T> RefMut<'refcell, T> {
    /// The cell that this guard borrows from.
    pub closed spec fn origin(&self) -> &RefCell<T> {
        self.cell
    }
}

impl<T> RefCell<T> {
    /// The borrow state that this cell was made with.
    pub closed spec fn state_at_start(&self) -> RefState {
        self.state.at_start()
    }

    /// A cell that holds `value`, with no guard live: its state starts as the state of
    /// [`BorrowLedger::fresh`].
    pub fn new(value: T) -> (cell: RefCell<T>)
        ensures
            cell.state_at_start() == BorrowLedger::fresh().state,
    {
        RefCell { value: store_new(value), state: Cell::new(RefState::Unshared) }
    }

    /// Borrows the value for reading. The answer is `None` while a write guard is live.
    pub fn borrow(&self) -> (guard: Option<Ref<'_, T>>)
        ensures
            guard matches Some(r) ==> r.origin() == self,
    {
        let next = self.state.get().admit_reader();
        let access = if next.is_some() {
            store_try_read(&self.value)
        } else {
            None
        };
        self.lend(next, access)
    }

    /// What a read borrow ends with where the state decided on `next` and the store answered
    /// with `access`: the guard, exactly where the state admitted the reader and the store
    /// gave access, and `next` is then the state of the cell.
    fn lend<'a>(
        &'a self,
        next: Option<RefState>,
        access: Option<std::sync::RwLockReadGuard<'a, T>>,
    ) -> (guard: Option<Ref<'a, T>>)
        ensures
            guard is Some <==> next is Some && access is Some,
            guard matches Some(r) ==> r.origin() == self,
    {
        match next {
            None => None,
            Some(state) => {
                match access {
                    None => None,
                    Some(value) => {
                        self.state.set(state);
                        Some(Ref { cell: self, value })
                    },
                }
            },
        }
    }

    /// Borrows the value for writing. The answer is `None` while any guard is live.
    pub fn borrow_mut(&self) -> (guard: Option<RefMut<'_, T>>)
        ensures
            guard matches Some(r) ==> r.origin() == self,
    {
        let next = self.state.get().admit_writer();
        let access = if next.is_some() {
            store_try_write(&self.value)
        } else {
            None
        };
        self.lend_mut(next, access)
    }

    /// What a write borrow ends with where the state decided on `next` and the store
    /// answered with `access`: the guard, exactly where the state admitted the writer and the
    /// store gave access, and `next` is then the state of the cell.
    fn lend_mut<'a>(
        &'a self,
        next: Option<RefState>,
        access: Option<std::sync::RwLockWriteGuard<'a, T>>,
    ) -> (guard: Option<RefMut<'a, T>>)
        ensures
            guard is Some <==> next is Some && access is Some,
            guard matches Some(r) ==> r.origin() == self,
    {
        match next {
            None => None,
            Some(state) => {
                match access {
                    None => None,
                    Some(value) => {
                        self.state.set(state);
                        Some(RefMut { cell: self, value })
                    },
                }
            },
        }
    }
}

impl<'a, T> Drop for Ref<'a, T> {
    /// Takes this guard off the state, as [`RefState::release_reader`] decides. A state
    /// that counts no reader is broken: the guard writes nothing then, and the cell stays
    /// as broken as it was found. [`law_state_counts_guards`] shows that no guard finds
    /// such a state, whatever was done with the cell before.
    fn drop(&mut self)
        opens_invariants none
        no_unwind
    {
        match self.cell.state.get().release_reader() {
            Some(next) => {
                let _ = self.cell.state.replace(next);
            },
            None => {},
        }
    }
}

impl<'a, T> Drop for RefMut<'a, T> {
    /// Leaves the state that [`RefState::release_writer`] gives, whatever the state was.
    fn drop(&mut self)
        opens_invariants none
        no_unwind
    {
        let _ = self.cell.state.replace(self.cell.state.get().release_writer());
    }
}

impl<T> std::ops::Deref for Ref<'_, T> {
    type Target = T;

    fn deref(&self) -> &Self::Target {
        shared_value(&self.value)
    }
}

impl<T> std::ops::Deref for RefMut<'_, T> {
    type Target = T;

    fn deref(&self) -> &Self::Target {
        exclusive_value(&self.value)
    }
}

impl<T> std::ops::DerefMut for RefMut<'_, T> {
    fn deref_mut(&mut self) -> &mut Self::Target {
        exclusive_value_mut(&mut self.value)
    }
}

/// What can happen to the guards of one cell.
pub enum BorrowEvent {
    /// `borrow` is called.
    Borrow,
    /// `borrow_mut` is called.
    BorrowMut,
    /// A live read guard goes.
    DropRef,
    /// A live write guard goes.
    DropRefMut,
}

/// One cell as a whole: the state it keeps, and the guards that are live.
pub struct BorrowLedger {
    pub state: RefState,
    pub refs: nat,
    pub ref_muts: nat,
}

impl BorrowLedger {
    /// The cell as `new` leaves it.
    pub open spec fn fresh() -> BorrowLedger {
        BorrowLedger { state: RefState::Unshared, refs: 0, ref_muts: 0 }
    }

    /// Whether `event` can happen: a guard has to be live to go.
    pub open spec fn enabled(self, event: BorrowEvent) -> bool {
        match event {
            BorrowEvent::Borrow | BorrowEvent::BorrowMut => true,
            BorrowEvent::DropRef => self.refs >= 1,
            BorrowEvent::DropRefMut => self.ref_muts >= 1,
        }
    }

    /// Whether `event` is a borrow that the cell answers with a guard.
    pub open spec fn granted(self, event: BorrowEvent) -> bool {
        match event {
            BorrowEvent::Borrow => self.state.after_borrow() is Some,
            BorrowEvent::BorrowMut => self.state.after_borrow_mut() is Some,
            _ => false,
        }
    }

    /// The cell after `event`. A borrow that is refused changes nothing.
    pub open spec fn step(self, event: BorrowEvent) -> BorrowLedger {
        match event {
            BorrowEvent::Borrow => match self.state.after_borrow() {
                Some(state) => BorrowLedger { state, refs: self.refs + 1, ref_muts: self.ref_muts },
                None => self,
            },
            BorrowEvent::BorrowMut => match self.state.after_borrow_mut() {
                Some(state) => BorrowLedger { state, refs: self.refs, ref_muts: self.ref_muts + 1 },
                None => self,
            },
            BorrowEvent::DropRef => BorrowLedger {
                state: match self.state.after_read_release() {
                    Some(state) => state,
                    None => self.state,
                },
                refs: (self.refs - 1) as nat,
                ref_muts: self.ref_muts,
            },
            BorrowEvent::DropRefMut => BorrowLedger {
                state: self.state.after_write_release(),
                refs: self.refs,
                ref_muts: (self.ref_muts - 1) as nat,
            },
        }
    }

    /// The cell after `events`, one after the other, from a fresh cell.
    pub open spec fn run(events: Seq<BorrowEvent>) -> BorrowLedger
        decreases events.len(),
    {
        if events.len() == 0 {
            BorrowLedger::fresh()
        } else {
            BorrowLedger::run(events.drop_last()).step(events.last())
        }
    }

    /// Whether each of `events` can happen when its turn comes.
    pub open spec fn possible(events: Seq<BorrowEvent>) -> bool
        decreases events.len(),
    {
        events.len() == 0 || (BorrowLedger::possible(events.drop_last()) && BorrowLedger::run(
            events.drop_last(),
        ).enabled(events.last()))
    }

    /// The state accounts for the live guards, one for one.
    pub open spec fn consistent(self) -> bool {
        &&& self.state.legal()
        &&& self.state.readers() == self.refs
        &&& self.state.writers() == self.ref_muts
    }
}

/// Every event that can happen keeps a consistent cell consistent.
pub proof fn lemma_borrow_step_consistent(ledger: BorrowLedger, event: BorrowEvent)
    requires
        ledger.consistent(),
        ledger.enabled(event),
    ensures
        ledger.step(event).consistent(),
{
}

/// Whatever has happened to a cell, its state tells the live guards: `Shared(n)` stands for
/// `n` read guards and no write guard, `Exclusive` for one write guard and no read guard,
/// `Unshared` for none at all. So a read guard and a write guard are never live together,
/// nor two write guards, and a read guard that goes always finds itself counted.
pub proof fn law_state_counts_guards(events: Seq<BorrowEvent>)
    requires
        BorrowLedger::possible(events),
    ensures
        BorrowLedger::run(events).consistent(),
        BorrowLedger::run(events).ref_muts <= 1,
        !(BorrowLedger::run(events).ref_muts >= 1 && BorrowLedger::run(events).refs >= 1),
        BorrowLedger::run(events).enabled(BorrowEvent::DropRef) ==> BorrowLedger::run(
            events,
        ).state.after_read_release() is Some,
    decreases events.len(),
{
    if events.len() > 0 {
        law_state_counts_guards(events.drop_last());
        lemma_borrow_step_consistent(BorrowLedger::run(events.drop_last()), events.last());
    }
}

/// Whatever has happened to a cell: while a read guard is live `borrow_mut` is refused;
/// while a write guard is live `borrow_mut` and `borrow` are both refused; while no guard is
/// live `borrow_mut` is granted; and `borrow` is granted whenever no write guard is live and
/// the count of read guards can still grow.
pub proof fn law_borrow_legality(events: Seq<BorrowEvent>)
    requires
        BorrowLedger::possible(events),
    ensures
        BorrowLedger::run(events).refs >= 1 ==> !BorrowLedger::run(events).granted(
            BorrowEvent::BorrowMut,
        ),
        BorrowLedger::run(events).ref_muts >= 1 ==> !BorrowLedger::run(events).granted(
            BorrowEvent::BorrowMut,
        ) && !BorrowLedger::run(events).granted(BorrowEvent::Borrow),
        BorrowLedger::run(events).refs == 0 && BorrowLedger::run(events).ref_muts == 0
            ==> BorrowLedger::run(events).granted(BorrowEvent::BorrowMut),
        BorrowLedger::run(events).ref_muts == 0 && BorrowLedger::run(events).refs < usize::MAX
            ==> BorrowLedger::run(events).granted(BorrowEvent::Borrow),
{
    law_state_counts_guards(events);
}

/// When the only live read guard of a cell goes, the next `borrow_mut` is granted.
pub proof fn law_borrow_mut_after_last_reader(events: Seq<BorrowEvent>)
    requires
        BorrowLedger::possible(events),
        BorrowLedger::run(events).refs == 1,
    ensures
        BorrowLedger::possible(events.push(BorrowEvent::DropRef)),
        BorrowLedger::run(events.push(BorrowEvent::DropRef)).granted(BorrowEvent::BorrowMut),
{
    law_state_counts_guards(events);
    let longer = events.push(BorrowEvent::DropRef);
    assert(longer.drop_last() == events);
    assert(longer.last() == BorrowEvent::DropRef);
}

} // verus!
