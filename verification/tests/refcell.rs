use pointers::arc::Arc;
use pointers::refcell::RefCell;
use pointers::refcell::RefState;
use std::sync::atomic::AtomicUsize;
use std::sync::atomic::Ordering;

#[test]
fn test_refcell_multiple_borrow() {
    let c = RefCell::new(5);
    let b1 = c.borrow().unwrap();
    assert_eq!(*b1, 5);
    let b2 = c.borrow().unwrap();
    assert_eq!(*b2, 5);
}

#[test]
fn test_refcell_borrow_mut() {
    let c = RefCell::new(5);
    let b1 = c.borrow().unwrap();
    assert_eq!(*b1, 5);
    assert!(c.borrow_mut().is_none());
    drop(b1);
    let mut b_mut = c.borrow_mut().unwrap();
    assert_eq!(*b_mut, 5);
    assert!(c.borrow_mut().is_none());
    *b_mut = 2;
    drop(b_mut);
    assert_eq!(*c.borrow().unwrap(), 2);
}

struct Tally<'a>(&'a AtomicUsize);

impl<'a> Drop for Tally<'a> {
    fn drop(&mut self) {
        self.0.fetch_add(1, Ordering::SeqCst);
    }
}

#[test]
fn scenario_shared_handles_then_borrows() {
    let destroyed = AtomicUsize::new(0);
    let first = Arc::new(Tally(&destroyed));
    let second = first.clone();
    let third = second.clone();
    assert_eq!(first.owner_count(), 3);
    drop(first);
    drop(second);
    drop(third);
    assert_eq!(destroyed.load(Ordering::SeqCst), 1);

    let cell = RefCell::new(5);
    let reader = cell.borrow().unwrap();
    assert_eq!(*reader, 5);
    assert!(cell.borrow_mut().is_none());
    drop(reader);
    let mut writer = cell.borrow_mut().unwrap();
    *writer = 2;
    drop(writer);
    assert_eq!(*cell.borrow().unwrap(), 2);
}

#[test]
fn refcell_write_guard_keeps_readers_out() {
    let c = RefCell::new(String::from("a"));
    let mut w = c.borrow_mut().unwrap();
    assert!(c.borrow().is_none());
    assert!(c.borrow_mut().is_none());
    w.push('b');
    drop(w);
    let r1 = c.borrow().unwrap();
    let r2 = c.borrow().unwrap();
    let r3 = c.borrow().unwrap();
    assert_eq!(*r1, "ab");
    drop(r2);
    assert!(c.borrow_mut().is_none());
    drop(r1);
    assert!(c.borrow_mut().is_none());
    drop(r3);
    assert!(c.borrow_mut().is_some());
}

fn same(left: Option<RefState>, right: Option<RefState>) -> bool {
    match (left, right) {
        (None, None) => true,
        (Some(RefState::Unshared), Some(RefState::Unshared)) => true,
        (Some(RefState::Exclusive), Some(RefState::Exclusive)) => true,
        (Some(RefState::Shared(a)), Some(RefState::Shared(b))) => a == b,
        _ => false,
    }
}

#[test]
fn refstate_read_path() {
    assert!(same(RefState::Unshared.admit_reader(), Some(RefState::Shared(1))));
    assert!(same(RefState::Shared(1).admit_reader(), Some(RefState::Shared(2))));
    assert!(same(RefState::Shared(2).release_reader(), Some(RefState::Shared(1))));
    assert!(same(RefState::Shared(1).release_reader(), Some(RefState::Unshared)));
    assert!(same(RefState::Exclusive.admit_reader(), None));
    assert!(same(RefState::Shared(usize::MAX).admit_reader(), None));
    assert!(same(
        RefState::Shared(usize::MAX - 1).admit_reader(),
        Some(RefState::Shared(usize::MAX))
    ));
}

#[test]
fn refstate_write_path() {
    assert!(same(RefState::Unshared.admit_writer(), Some(RefState::Exclusive)));
    assert!(same(RefState::Exclusive.admit_writer(), None));
    assert!(same(RefState::Shared(1).admit_writer(), None));
    assert!(same(RefState::Shared(7).admit_writer(), None));
    assert!(same(Some(RefState::Exclusive.release_writer()), Some(RefState::Unshared)));
}

#[test]
fn refstate_release_without_reader() {
    assert!(same(RefState::Unshared.release_reader(), None));
    assert!(same(RefState::Exclusive.release_reader(), None));
    assert!(same(RefState::Shared(0).release_reader(), None));
}

#[test]
fn refcell_starts_unshared() {
    let c = RefCell::new(9);
    let w = c.borrow_mut();
    assert!(w.is_some());
    assert_eq!(*w.unwrap(), 9);
    let d = RefCell::new(9);
    let r = d.borrow();
    assert!(r.is_some());
    assert_eq!(*r.unwrap(), 9);
}
