use pointers::rwlock::admit_reader;
use pointers::rwlock::release_reader;
use pointers::rwlock::RwLock;

#[test]
fn test_rwlock() {
    let lock = RwLock::new(5);

    // many reader locks can be held at once
    {
        let r1 = lock.read(1).unwrap();
        let r2 = lock.read(1).unwrap();
        assert_eq!(*r1, 5);
        assert_eq!(*r2, 5);
    } // read locks are dropped at this point

    // only one write lock may be held, however
    {
        let mut w = lock.write(1).unwrap();
        *w += 1;
        assert_eq!(*w, 6);
    }
}

#[test]
fn rwlock_writer_keeps_everyone_out() {
    let lock = RwLock::new(0);
    let w = lock.write(1).unwrap();
    assert!(lock.try_read().is_none());
    assert!(lock.try_write().is_none());
    assert!(lock.read(3).is_none());
    assert!(lock.write(3).is_none());
    drop(w);
    assert!(lock.try_write().is_some());
}

#[test]
fn rwlock_readers_keep_writer_out() {
    let lock = RwLock::new(7);
    let r1 = lock.try_read().unwrap();
    let r2 = lock.try_read().unwrap();
    assert!(lock.try_write().is_none());
    drop(r1);
    assert!(lock.try_write().is_none());
    drop(r2);
    let mut w = lock.try_write().unwrap();
    *w = 8;
    drop(w);
    assert_eq!(*lock.try_read().unwrap(), 8);
}

#[test]
fn rwlock_no_attempt_no_guard() {
    let lock = RwLock::new(1);
    assert!(lock.read(0).is_none());
    assert!(lock.write(0).is_none());
}

#[test]
fn rwlock_admit_reader_values() {
    assert_eq!(admit_reader(0), Some(1));
    assert_eq!(admit_reader(41), Some(42));
    assert_eq!(admit_reader(-1), None);
    assert_eq!(admit_reader(isize::MIN), None);
    assert_eq!(admit_reader(isize::MAX), None);
    assert_eq!(admit_reader(isize::MAX - 1), Some(isize::MAX));
}

#[test]
fn rwlock_release_reader_values() {
    assert_eq!(release_reader(1), Some(0));
    assert_eq!(release_reader(42), Some(41));
    assert_eq!(release_reader(isize::MAX), Some(isize::MAX - 1));
    assert_eq!(release_reader(0), None);
    assert_eq!(release_reader(-1), None);
    assert_eq!(release_reader(isize::MIN), None);
}

#[test]
fn rwlock_starts_free() {
    let lock = RwLock::new(3);
    let mut w = lock.try_write().unwrap();
    *w += 1;
    drop(w);
    let r1 = lock.try_read().unwrap();
    let r2 = lock.try_read().unwrap();
    assert_eq!(*r1 + *r2, 8);
}

#[test]
fn rwlock_readers_count_down_to_free() {
    let lock = RwLock::new(0u8);
    let readers = vec![lock.try_read().unwrap(), lock.try_read().unwrap(), lock.try_read().unwrap()];
    assert!(lock.try_write().is_none());
    drop(readers);
    assert!(lock.try_write().is_some());
    assert!(lock.try_read().is_some());
}
