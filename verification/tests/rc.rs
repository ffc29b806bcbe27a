use pointers::owners::decremented;
use pointers::owners::incremented;
use pointers::owners::is_last_owner;
use pointers::rc::Rc;
use std::cell::Cell as Tally;

struct Counted<'a>(&'a Tally<usize>);

impl<'a> Drop for Counted<'a> {
    fn drop(&mut self) {
        self.0.set(self.0.get() + 1);
    }
}

#[test]
fn test_rc() {
    let a = Rc::new("hello".to_string());
    let b = Rc::clone(&a);
    assert_eq!(*a, "hello");
    assert_eq!(*b, "hello");
    drop(b);
    assert_eq!(*a, "hello");
    drop(a);
}

#[test]
fn rc_counts_its_owners() {
    let a = Rc::new(5);
    assert_eq!(a.owner_count(), 1);
    let b = a.clone();
    let c = b.clone();
    assert_eq!(a.owner_count(), 3);
    assert_eq!(c.owner_count(), 3);
    drop(b);
    assert_eq!(a.owner_count(), 2);
    drop(c);
    assert_eq!(a.owner_count(), 1);
}

#[test]
fn rc_destroys_value_once_with_last_handle() {
    let destroyed = Tally::new(0);
    let a = Rc::new(Counted(&destroyed));
    let b = a.clone();
    let c = a.clone();
    drop(a);
    assert_eq!(destroyed.get(), 0);
    drop(c);
    assert_eq!(destroyed.get(), 0);
    drop(b);
    assert_eq!(destroyed.get(), 1);
}

#[test]
fn owner_count_steps() {
    assert_eq!(incremented(1), Some(2));
    assert_eq!(incremented(usize::MAX - 1), Some(usize::MAX));
    assert_eq!(decremented(3), Some(2));
    assert_eq!(decremented(1), Some(0));
    assert!(is_last_owner(1));
    assert!(!is_last_owner(2));
    assert!(!is_last_owner(0));
}

#[test]
fn owner_count_broken() {
    assert_eq!(incremented(0), None);
    assert_eq!(incremented(usize::MAX), None);
    assert_eq!(decremented(0), None);
}
