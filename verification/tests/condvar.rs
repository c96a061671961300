use sgx_std::sync::poison::Flag;
use sgx_std::sync::sys::locks::{CondvarError, InvalidState};
use sgx_std::sync::{Condvar, LockResult, Mutex, MutexGuard, WaitWhile};

fn locked(mutex: &Mutex) -> MutexGuard {
    match mutex.lock(Ok(())).expect("the platform mutex is sound") {
        Ok(guard) => guard,
        Err(poisoned) => poisoned.into_inner(),
    }
}

#[test]
fn wait_hands_the_guard_back() {
    let mutex = Mutex::new();
    let condvar = Condvar::new();

    let woken = condvar.wait("guard", &mutex, Ok(()));

    assert_eq!(woken.expect("the platform is sound").ok(), Some("guard"));
}

#[test]
fn wait_on_a_poisoned_mutex_hands_the_guard_back_in_an_error() {
    let mutex = Mutex::restore(Flag::restore(true));
    let condvar = Condvar::default();

    let woken = condvar.wait("guard", &mutex, Ok(()));

    let poisoned = woken.expect("the platform is sound").unwrap_err();
    assert_eq!(poisoned.into_inner(), "guard");
}

#[test]
fn wait_finds_the_poison_that_came_while_it_waited() {
    let mut mutex = Mutex::new();
    let condvar = Condvar::new();
    let waiter = locked(&mutex);

    // While the waiter is blocked, another thread takes the mutex and
    // panics with it.
    let other = locked(&mutex);
    mutex.release(&other, true);
    assert_eq!(mutex.unlock(Ok(())), Ok(()));

    let woken = condvar.wait(waiter, &mutex, Ok(()));
    assert!(woken.expect("the platform is sound").is_err());
}

#[test]
fn wait_stops_when_the_platform_failed() {
    let mutex = Mutex::new();
    let condvar = Condvar::new();
    for error in [
        CondvarError::Invalid,
        CondvarError::MutexLock,
        CondvarError::OutOfMemory,
    ] {
        let woken = condvar.wait(locked(&mutex), &mutex, Err(error));
        assert_eq!(woken.err(), Some(InvalidState::CondvarWait));
    }
}

#[test]
fn notify_with_nobody_waiting_does_nothing() {
    let condvar = Condvar::new();
    assert_eq!(condvar.notify_one(Ok(())), Ok(()));
    assert_eq!(condvar.notify_all(Ok(())), Ok(()));
}

#[test]
fn notify_stops_when_the_platform_failed() {
    let condvar = Condvar::new();
    assert_eq!(
        condvar.notify_one(Err(CondvarError::Invalid)),
        Err(InvalidState::CondvarNotify)
    );
    assert_eq!(
        condvar.notify_all(Err(CondvarError::OutOfMemory)),
        Err(InvalidState::CondvarNotify)
    );
}

#[test]
fn wait_while_returns_at_once_when_the_condition_is_false() {
    let condvar = Condvar::new();
    match condvar.wait_while("guard", false) {
        WaitWhile::Return(Ok(guard)) => assert_eq!(guard, "guard"),
        _ => panic!("nothing to wait for"),
    }
}

#[test]
fn wait_while_waits_when_the_condition_holds() {
    let condvar = Condvar::new();
    match condvar.wait_while("guard", true) {
        WaitWhile::Wait(guard) => assert_eq!(guard, "guard"),
        _ => panic!("the condition holds"),
    }
}

#[test]
fn wait_while_looks_again_after_each_wake_up() {
    let condvar = Condvar::new();
    match condvar.wait_while_woken(Ok("guard")) {
        WaitWhile::Check(guard) => assert_eq!(guard, "guard"),
        _ => panic!("a wake-up may be spurious"),
    }
}

#[test]
fn wait_while_returns_the_poison_error_of_a_wait() {
    let mutex = Mutex::restore(Flag::restore(true));
    let waited = mutex.borrow("guard");
    let condvar = Condvar::new();
    match condvar.wait_while_woken(waited) {
        WaitWhile::Return(Err(poisoned)) => assert_eq!(poisoned.into_inner(), "guard"),
        _ => panic!("the mutex is poisoned"),
    }
}

/// Runs `wait_while` as a caller does. `pending` is the value behind the
/// mutex; each wake-up takes the next of `wakes`, which says what the value
/// is by then. Returns the result and the number of waits.
fn run_wait_while(
    condvar: &Condvar,
    mutex: &Mutex,
    mut pending: bool,
    wakes: &[bool],
) -> (LockResult<MutexGuard>, usize) {
    let mut waits = 0;
    let mut step = WaitWhile::Check(locked(mutex));
    loop {
        step = match step {
            WaitWhile::Check(guard) => condvar.wait_while(guard, pending),
            WaitWhile::Wait(guard) => {
                pending = wakes[waits];
                waits += 1;
                let woken = condvar.wait(guard, mutex, Ok(()));
                condvar.wait_while_woken(woken.expect("the platform is sound"))
            }
            WaitWhile::Return(result) => return (result, waits),
        }
    }
}

#[test]
fn wait_while_returns_only_when_the_condition_is_false() {
    let mutex = Mutex::new();
    let condvar = Condvar::new();

    let (result, waits) = run_wait_while(&condvar, &mutex, false, &[]);
    assert!(result.is_ok());
    assert_eq!(waits, 0);

    let (result, waits) = run_wait_while(&condvar, &mutex, true, &[false]);
    assert!(result.is_ok());
    assert_eq!(waits, 1);

    // Two wake-ups that found the condition unchanged, then the real one.
    let (result, waits) = run_wait_while(&condvar, &mutex, true, &[true, true, false, true]);
    assert!(result.is_ok());
    assert_eq!(waits, 3);
}

#[test]
fn wait_while_on_a_poisoned_mutex_returns_after_the_first_wait() {
    let mutex = Mutex::restore(Flag::restore(true));
    let condvar = Condvar::new();

    let (result, waits) = run_wait_while(&condvar, &mutex, true, &[true, true]);
    assert!(result.is_err());
    assert_eq!(waits, 1);

    // With nothing to wait for, the guard comes back without a look at the
    // flag.
    let (result, waits) = run_wait_while(&condvar, &mutex, false, &[]);
    assert!(result.is_ok());
    assert_eq!(waits, 0);
}
