use sgx_std::sync::poison::Flag;
use sgx_std::sync::sys::locks::{InvalidState, RwLockError};
use sgx_std::sync::{RwLock, TryLockError};

#[test]
fn new_rwlock_is_not_poisoned() {
    let lock = RwLock::new();
    assert!(!lock.is_poisoned());
}

#[test]
fn read_and_write_hand_out_guards() {
    let lock = RwLock::new();
    assert!(lock.read(Ok(())).expect("the platform lock is sound").is_ok());
    assert!(lock.write(Ok(())).expect("the platform lock is sound").is_ok());
    assert!(lock.try_read(Ok(true)).expect("the platform lock is sound").is_ok());
    assert!(lock.try_write(Ok(true)).expect("the platform lock is sound").is_ok());
}

#[test]
fn several_readers_at_a_time() {
    let mut lock = RwLock::new();
    let first = lock.read(Ok(())).unwrap().unwrap();
    let second = lock.read(Ok(())).unwrap().unwrap();
    let third = lock.try_read(Ok(true)).unwrap().ok().unwrap();

    lock.release_read(&second, false);
    assert_eq!(lock.read_unlock(Ok(())), Ok(()));
    lock.release_read(&first, false);
    assert_eq!(lock.read_unlock(Ok(())), Ok(()));
    lock.release_read(&third, false);
    assert_eq!(lock.read_unlock(Ok(())), Ok(()));

    assert!(!lock.is_poisoned());
}

#[test]
fn read_and_write_without_panic_never_poison() {
    let mut lock = RwLock::new();
    for _ in 0..50 {
        let guard = lock.read(Ok(())).unwrap().expect("no thread panicked");
        lock.release_read(&guard, false);
        assert_eq!(lock.read_unlock(Ok(())), Ok(()));
        let guard = lock.write(Ok(())).unwrap().expect("no thread panicked");
        lock.release_write(&guard, false);
        assert_eq!(lock.write_unlock(Ok(())), Ok(()));
        assert!(!lock.is_poisoned());
    }
}

#[test]
fn try_of_a_held_lock_would_block() {
    let lock = RwLock::new();
    assert!(matches!(
        lock.try_read(Ok(false)).unwrap(),
        Err(TryLockError::WouldBlock)
    ));
    assert!(matches!(
        lock.try_write(Ok(false)).unwrap(),
        Err(TryLockError::WouldBlock)
    ));
}

#[test]
fn reading_while_holding_the_write_lock_stops() {
    let lock = RwLock::new();
    let _writer = lock.write(Ok(())).unwrap().unwrap();
    assert_eq!(
        lock.read(Err(RwLockError::WriteLocked)).err(),
        Some(InvalidState::RwLock)
    );
    assert_eq!(
        lock.try_read(Err(RwLockError::WriteLocked)).err(),
        Some(InvalidState::RwLock)
    );
    assert_eq!(
        lock.write(Err(RwLockError::WriteLocked)).err(),
        Some(InvalidState::RwLock)
    );
    assert_eq!(
        lock.try_write(Err(RwLockError::WriteLocked)).err(),
        Some(InvalidState::RwLock)
    );
}

#[test]
fn releasing_more_readers_than_were_acquired_stops() {
    let lock = RwLock::new();
    assert_eq!(
        lock.read_unlock(Err(RwLockError::Invalid)),
        Err(InvalidState::RwLock)
    );
    assert_eq!(
        lock.write_unlock(Err(RwLockError::LockNotOwned)),
        Err(InvalidState::RwLock)
    );
    assert_eq!(
        lock.write_unlock(Err(RwLockError::OutOfMemory)),
        Err(InvalidState::RwLock)
    );
}

#[test]
fn writer_released_during_unwind_poisons_readers_and_writers() {
    let mut lock = RwLock::new();
    let guard = lock.write(Ok(())).unwrap().unwrap();

    lock.release_write(&guard, true);
    assert_eq!(lock.write_unlock(Ok(())), Ok(()));

    assert!(lock.is_poisoned());
    assert!(lock.read(Ok(())).unwrap().is_err());
    assert!(lock.write(Ok(())).unwrap().is_err());
    assert!(matches!(
        lock.try_read(Ok(true)).unwrap(),
        Err(TryLockError::Poisoned(_))
    ));
    assert!(matches!(
        lock.try_write(Ok(true)).unwrap(),
        Err(TryLockError::Poisoned(_))
    ));
}

#[test]
fn reader_released_during_unwind_poisons_readers_and_writers() {
    let mut lock = RwLock::new();
    let calm = lock.read(Ok(())).unwrap().unwrap();
    let unwinding = lock.read(Ok(())).unwrap().unwrap();

    lock.release_read(&unwinding, true);
    assert_eq!(lock.read_unlock(Ok(())), Ok(()));
    lock.release_read(&calm, false);
    assert_eq!(lock.read_unlock(Ok(())), Ok(()));

    assert!(lock.is_poisoned());
    assert!(lock.read(Ok(())).unwrap().is_err());
    assert!(lock.write(Ok(())).unwrap().is_err());
}

#[test]
fn poisoned_rwlock_still_grants_access_and_stays_poisoned() {
    let mut lock = RwLock::restore(Flag::restore(true));
    for _ in 0..10 {
        let guard = lock.write(Ok(())).unwrap().unwrap_err().into_inner();
        lock.release_write(&guard, false);
        assert_eq!(lock.write_unlock(Ok(())), Ok(()));
        let guard = lock.read(Ok(())).unwrap().unwrap_err().into_inner();
        lock.release_read(&guard, false);
        assert_eq!(lock.read_unlock(Ok(())), Ok(()));
        assert!(lock.is_poisoned());
    }
}

#[test]
fn restored_rwlock_is_as_poisoned_as_its_flag() {
    assert!(RwLock::restore(Flag::restore(true)).is_poisoned());
    assert!(!RwLock::restore(Flag::restore(false)).is_poisoned());
}
