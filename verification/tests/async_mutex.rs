use pointers::async_mutex::refusal;
use pointers::async_mutex::AsyncMutex;
use pointers::async_mutex::LockError;
use std::future::Future;
use std::task::Context;
use std::task::Poll;
use std::task::Waker;
use tokio::sync::AcquireError;
use tokio::sync::SemaphorePermit;
use tokio::sync::TryAcquireError;

fn poll_permit<T>(mutex: &AsyncMutex<T>) -> Poll<Result<SemaphorePermit<'_>, AcquireError>> {
    let mut waiting = Box::pin(mutex.permits().acquire());
    let mut context = Context::from_waker(Waker::noop());
    waiting.as_mut().poll(&mut context)
}

#[test]
fn async_mutex_write_then_read() {
    let mutex = AsyncMutex::new(0);
    {
        *mutex.try_lock().unwrap().unwrap() = 10;
    }
    assert_eq!(*mutex.try_lock().unwrap().unwrap(), 10);
}

#[test]
fn async_mutex_one_guard_at_a_time() {
    let mutex = AsyncMutex::new(1);
    let guard = mutex.try_lock().unwrap().unwrap();
    assert!(matches!(mutex.try_lock(), Ok(None)));
    assert!(poll_permit(&mutex).is_pending());
    assert_eq!(mutex.permits().available_permits(), 0);
    drop(guard);
    assert_eq!(mutex.permits().available_permits(), 1);
    assert!(matches!(mutex.try_lock(), Ok(Some(_))));
    assert_eq!(mutex.permits().available_permits(), 1);
}

#[test]
fn async_mutex_enters_with_awaited_permit() {
    let mutex = AsyncMutex::new(3);
    let polled = poll_permit(&mutex);
    match polled {
        Poll::Ready(acquired) => {
            let mut guard = mutex.enter(acquired).unwrap().unwrap();
            *guard += 1;
            assert_eq!(*guard, 4);
            assert!(matches!(mutex.try_lock(), Ok(None)));
        }
        Poll::Pending => panic!("the permit was free"),
    }
    assert_eq!(*mutex.try_lock().unwrap().unwrap(), 4);
}

#[test]
fn async_mutex_closed() {
    let mutex = AsyncMutex::new(0);
    mutex.permits().close();
    assert!(matches!(mutex.try_lock(), Err(LockError::Closed)));
    let polled = poll_permit(&mutex);
    match polled {
        Poll::Ready(acquired) => {
            assert!(acquired.is_err());
            assert!(matches!(mutex.enter(acquired), Err(LockError::Closed)));
        }
        Poll::Pending => panic!("a closed semaphore answers at once"),
    }
}

#[test]
fn async_mutex_refusals() {
    assert_eq!(refusal(TryAcquireError::Closed), Some(LockError::Closed));
    assert_eq!(refusal(TryAcquireError::NoPermits), None);
}

#[test]
fn async_mutex_increments_are_not_lost() {
    let mutex = AsyncMutex::new(0usize);
    for _ in 0..40 {
        for _ in 0..100 {
            let mut guard = mutex.try_lock().unwrap().unwrap();
            *guard += 1;
        }
    }
    assert_eq!(*mutex.try_lock().unwrap().unwrap(), 4000);
}

#[test]
fn async_mutex_starts_with_one_permit() {
    let mutex = AsyncMutex::new(String::from("value"));
    assert_eq!(mutex.permits().available_permits(), 1);
    assert!(!mutex.permits().is_closed());
    let first = mutex.permits().try_acquire();
    assert!(first.is_ok());
    assert_eq!(mutex.permits().try_acquire().err(), Some(TryAcquireError::NoPermits));
    assert!(matches!(mutex.try_lock(), Ok(None)));
}
