use vstd::prelude::*;

verus! {

/// `std::cell::Cell`, the store under [`Cell`]. What it holds cannot be seen in contracts.
#[verifier::external_type_specification]
#[verifier::external_body]
#[verifier::reject_recursive_types(T)]
pub struct ExStdCell<T: ?Sized>(std::cell::Cell<T>);

/// `std::cell::Cell::new`: a store that holds `value`. Nothing is claimed of the result.
#[verifier::external_body]
fn slot_new<T>(value: T) -> (slot: std::cell::Cell<T>) {
    std::cell::Cell::new(value)
}

/// `std::cell::Cell::replace`: puts `value` into the store and hands out what was there.
/// It does not unwind. Nothing is claimed of the result.
#[verifier::external_body]
fn slot_replace<T>(slot: &std::cell::Cell<T>, value: T) -> (previous: T)
    opens_invariants none
    no_unwind
{
    slot.replace(value)
}

/// `std::cell::Cell::get`: a copy of what the store holds. It does not unwind. Nothing is
/// claimed of the result.
#[verifier::external_body]
fn slot_get<T: Copy>(slot: &std::cell::Cell<T>) -> (current: T)
    opens_invariants none
    no_unwind
{
    slot.get()
}

/// A memory location that can be written through a shared reference, because the value
/// only ever moves in and out as a whole: no reference into the cell is handed out.
///
/// The cell is for one thread only, and its type says so: it cannot be shared between
/// threads. To a contract a cell is the location, not what the location holds at a given
/// moment, so no contract here can say which value a read finds. What a contract can speak
/// of is the value that the cell was made with.
#[verifier::reject_recursive_types(T)]
pub struct Cell<T> {
    value: std::cell::Cell<T>,
    made_with: Ghost<T>,
}

impl<T> Cell<T> {
    /// The value that the cell was made with. It says nothing of the value that the cell
    /// holds at a given moment.
    pub closed spec fn at_start(&self) -> T {
        self.made_with@
    }

    /// A cell that holds `value`.
    pub fn new(value: T) -> (cell: Self)
        ensures
            cell.at_start() == value,
    {
        let made_with = Ghost(value);
        Cell { value: slot_new(value), made_with }
    }

    /// Puts `value` into the cell and hands out the value that it replaces.
    pub(crate) fn replace(&self, value: T) -> (previous: T)
        opens_invariants none
        no_unwind
    {
        slot_replace(&self.value, value)
    }

    /// Puts `value` into the cell in place of the value that it holds.
    pub fn set(&self, value: T) {
        let _previous = self.replace(value);
    }

    /// A copy of the value that the cell holds.
    pub fn get(&self) -> (value: T) where T: Copy
        opens_invariants none
        no_unwind
    {
        slot_get(&self.value)
    }
}

} // verus!
