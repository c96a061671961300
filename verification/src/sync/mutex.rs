//! A mutual exclusion lock that knows whether it is poisoned.
//!
//! [`Mutex`] is the part of a mutex that decides. The platform mutex blocks
//! and wakes the threads, and the value that the mutex protects lives where
//! the threads can reach it; neither is held here. An operation takes what
//! the platform answered and says what the caller gets: a guard, a guard
//! inside a [`PoisonError`], or an [`InvalidState`] on which to stop.

use crate::sync::poison::{
    lock_result, poisoned_after, spec_acquired, spec_try_acquired, Event, Flag, Guard,
    LockResult, PoisonError, TryLockError, TryLockResult,
};
use crate::sync::sys::locks as sys;
use crate::sync::sys::locks::{spec_settled, InvalidState, MutexError};
use vstd::prelude::*;

verus! {

/// A mutual exclusion primitive useful for protecting shared data.
///
/// Exactly one thread holds a guard of it at a time: the platform mutex sees
/// to that. Locking it again from the thread that holds it is a programming
/// error, which the platform reports as a failure of state.
#[derive(Debug)]
pub struct Mutex {
    inner: sys::Mutex,
    poison: Flag,
}

/// Proof that the mutex was acquired. Whoever holds it has exclusive access
/// to what the mutex protects, until it is given back to
/// [`Mutex::release`].
#[must_use]
#[derive(Debug)]
pub struct MutexGuard {
    poison: Guard,
}

impl Mutex {
    /// Whether the mutex is poisoned.
    pub closed spec fn poisoned(&self) -> bool {
        self.poison@
    }

    /// Creates a new mutex in an unlocked state ready for use.
    pub fn new() -> (mutex: Mutex)
        ensures
            !mutex.poisoned(),
    {
        Mutex { inner: sys::Mutex::new(), poison: Flag::new() }
    }

    /// The mutex whose poison flag is `poison`, for callers that keep the state
    /// of the mutex between operations in a form of their own, which threads
    /// can share.
    pub fn restore(poison: Flag) -> (mutex: Mutex)
        ensures
            mutex.poisoned() == poison@,
    {
        Mutex { inner: sys::Mutex::new(), poison }
    }

    /// Determines whether the mutex is poisoned.
    pub fn is_poisoned(&self) -> (poisoned: bool)
        ensures
            poisoned == self.poisoned(),
    {
        self.poison.get()
    }

    /// Acquires the mutex. `outcome` is what the platform answered to the
    /// blocking lock call, which returned once the mutex was held.
    ///
    /// # Errors
    ///
    /// If a guard of this mutex was released during an unwind, the guard
    /// comes inside an error. The mutex is held all the same.
    ///
    /// If the platform reported a failure, so does this call, and no guard
    /// is handed out.
    pub fn lock(&self, outcome: Result<(), MutexError>) -> (granted: Result<
        LockResult<MutexGuard>,
        InvalidState,
    >)
        ensures
            spec_acquired(outcome, self.poisoned(), InvalidState::Mutex, granted),
    {
        match self.inner.lock(outcome) {
            Ok(()) => Ok(MutexGuard::new(self)),
            Err(failure) => Err(failure),
        }
    }

    /// Attempts to acquire the mutex. `outcome` is what the platform answered
    /// to the non-blocking lock call.
    ///
    /// # Errors
    ///
    /// If the mutex is held elsewhere, the result is
    /// [`TryLockError::WouldBlock`]. If the mutex was acquired and is
    /// poisoned, the guard comes inside [`TryLockError::Poisoned`].
    ///
    /// If the platform reported a failure, so does this call.
    pub fn try_lock(&self, outcome: Result<bool, MutexError>) -> (granted: Result<
        TryLockResult<MutexGuard>,
        InvalidState,
    >)
        ensures
            spec_try_acquired(outcome, self.poisoned(), InvalidState::Mutex, granted),
    {
        match self.inner.try_lock(outcome) {
            Ok(true) => match MutexGuard::new(self) {
                Ok(guard) => Ok(Ok(guard)),
                Err(error) => Ok(Err(TryLockError::Poisoned(error))),
            },
            Ok(false) => Ok(Err(TryLockError::WouldBlock)),
            Err(failure) => Err(failure),
        }
    }

    /// Wraps a guard of this mutex that is held, as an acquisition would:
    /// inside an error if the mutex is poisoned.
    pub fn borrow<G>(&self, guard: G) -> (result: LockResult<G>)
        ensures
            result == lock_result(self.poisoned(), guard),
    {
        self.poison.borrow(guard)
    }

    /// First half of giving a guard back, before the platform mutex is
    /// unlocked: the mutex becomes poisoned if the thread is unwinding.
    pub fn release(&mut self, guard: &MutexGuard, panicking: bool)
        ensures
            final(self).poisoned() == poisoned_after(
                old(self).poisoned(),
                Event::Release { unwinding: panicking },
            ),
    {
        self.poison.done(&guard.poison, panicking);
    }

    /// Second half of giving a guard back. `outcome` is what the platform
    /// answered to the unlock call.
    pub fn unlock(&self, outcome: Result<(), MutexError>) -> (settled: Result<(), InvalidState>)
        ensures
            settled == spec_settled(outcome, InvalidState::Mutex),
    {
        self.inner.unlock(outcome)
    }
}

impl MutexGuard {
    fn new(lock: &Mutex) -> (result: LockResult<MutexGuard>)
        ensures
            result is Err <==> lock.poisoned(),
    {
        match lock.poison.guard() {
            Ok(guard) => Ok(MutexGuard { poison: guard }),
            Err(error) => Err(PoisonError::new(MutexGuard { poison: error.into_inner() })),
        }
    }
}

} // verus!
