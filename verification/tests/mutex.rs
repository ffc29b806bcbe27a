use pointers::futex_mutex::FutexMutex;
use pointers::mutex::Mutex;

#[test]
fn mutex_write_then_read() {
    let mutex = Mutex::new(0);
    {
        *mutex.lock(1).unwrap() = 10;
    }
    assert_eq!(*mutex.lock(1).unwrap(), 10);
}

#[test]
fn mutex_one_guard_at_a_time() {
    let mutex = Mutex::new(1);
    let guard = mutex.try_lock().unwrap();
    assert!(mutex.try_lock().is_none());
    assert!(mutex.lock(5).is_none());
    drop(guard);
    assert!(mutex.try_lock().is_some());
}

#[test]
fn mutex_no_attempt_no_guard() {
    let mutex = Mutex::new(1);
    assert!(mutex.lock(0).is_none());
}

#[test]
fn mutex_increments_are_not_lost() {
    let mutex = Mutex::new(0usize);
    for _ in 0..40 {
        for _ in 0..100 {
            let mut guard = mutex.lock(1).unwrap();
            *guard += 1;
        }
    }
    assert_eq!(*mutex.lock(1).unwrap(), 4000);
}

#[test]
fn futex_mutex_write_then_read() {
    let mutex = FutexMutex::new(0);
    {
        *mutex.lock(1).unwrap() = 10;
    }
    assert_eq!(*mutex.lock(1).unwrap(), 10);
}

#[test]
fn futex_mutex_one_guard_at_a_time() {
    let mutex = FutexMutex::new(1);
    let guard = mutex.try_lock().unwrap();
    assert!(mutex.try_lock().is_none());
    drop(guard);
    assert!(mutex.try_lock().is_some());
}

#[test]
fn futex_mutex_no_attempt_no_guard() {
    let mutex = FutexMutex::new(1);
    assert!(mutex.lock(0).is_none());
}

#[test]
fn futex_mutex_increments_are_not_lost() {
    let mutex = FutexMutex::new(0usize);
    for _ in 0..40 {
        for _ in 0..100 {
            let mut guard = mutex.lock(1).unwrap();
            *guard += 1;
        }
    }
    assert_eq!(*mutex.lock(1).unwrap(), 4000);
}

#[test]
fn futex_mutex_starts_free() {
    let mutex = FutexMutex::new(5u8);
    let guard = mutex.try_lock();
    assert!(guard.is_some());
    assert_eq!(*guard.unwrap(), 5);
}

#[test]
fn mutex_starts_free() {
    let mutex = Mutex::new(5u8);
    let guard = mutex.try_lock();
    assert!(guard.is_some());
    assert_eq!(*guard.unwrap(), 5);
}
