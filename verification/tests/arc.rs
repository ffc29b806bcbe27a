use pointers::arc::Arc;
use std::sync::atomic::AtomicUsize;
use std::sync::atomic::Ordering;

struct Counter<'a>(&'a AtomicUsize);

impl<'a> Drop for Counter<'a> {
    fn drop(&mut self) {
        self.0.fetch_add(1, Ordering::SeqCst);
    }
}

#[test]
fn drop_once() {
    let d = AtomicUsize::new(0);

    {
        let a = Arc::new(Counter(&d));
        let b = a.clone();
        let c = b.clone();
        drop(a);
        drop(b);
        drop(c);
    }

    assert_eq!(d.load(Ordering::SeqCst), 1, "Drop must happen exactly once");
}

#[test]
fn clone_increments_count() {
    let a = Arc::new(10);
    let b = a.clone();
    let c = b.clone();

    assert_eq!(a.owner_count(), 3);
    assert_eq!(*c, 10);
}

#[test]
fn multiple_readers() {
    let a = Arc::new(vec![1, 2, 3]);

    let b = a.clone();
    let c = b.clone();

    assert_eq!(a[1], 2);
    assert_eq!(b[1], 2);
    assert_eq!(c[1], 2);
}

#[test]
fn arc_destructor_waits_for_last_handle() {
    let d = AtomicUsize::new(0);
    let a = Arc::new(Counter(&d));
    let b = a.clone();
    assert_eq!(a.owner_count(), 2);
    drop(a);
    assert_eq!(d.load(Ordering::SeqCst), 0);
    assert_eq!(b.owner_count(), 1);
    drop(b);
    assert_eq!(d.load(Ordering::SeqCst), 1);
}

#[test]
fn arc_clones_and_drops_leave_the_first_handle() {
    let a = Arc::new(123);
    for _ in 0..100 {
        let x = a.clone();
        let _y = x.clone();
        let _z = x.clone();
        assert_eq!(a.owner_count(), 4);
    }
    assert_eq!(a.owner_count(), 1);
    assert_eq!(*a, 123);
}

#[test]
fn arc_starts_with_one_owner() {
    let a = Arc::new(String::from("x"));
    assert_eq!(a.owner_count(), 1);
    let b = a.clone();
    assert_eq!(b.owner_count(), 2);
    drop(a);
    assert_eq!(b.owner_count(), 1);
    assert_eq!(*b, "x");
}
