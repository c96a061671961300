//! A reader-writer lock that knows whether it is poisoned.
//!
//! [`RwLock`] is the part of a reader-writer lock that decides. The platform
//! lock blocks and wakes the threads and counts the readers, and the value
//! that the lock protects lives where the threads can reach it; neither is
//! held here. An operation takes what the platform answered and says what the
//! caller gets.

use crate::sync::poison::{
    poisoned_after, spec_acquired, spec_try_acquired, Event, Flag, Guard, LockResult, PoisonError,
    TryLockError, TryLockResult,
};
use crate::sync::sys::locks as sys;
use crate::sync::sys::locks::{spec_settled, InvalidState, RwLockError};
use vstd::prelude::*;

verus! {

/// A reader-writer lock
///
/// This type of lock allows a number of readers or at most one writer at any
/// point in time. The write portion of this lock typically allows modification
/// of the underlying data (exclusive access) and the read portion of this lock
/// typically allows for read-only access (shared access).
///
/// The platform counts the readers and does not know them apart: to give a
/// read guard back is to give back *a* reader's share, whoever took it.
/// Callers must not give back more read guards than were handed out.
#[derive(Debug)]
pub struct RwLock {
    inner: sys::RwLock,
    poison: Flag,
}

/// Proof that shared read access was granted, until it is given back to
/// [`RwLock::release_read`].
#[must_use]
#[derive(Debug)]
pub struct RwLockReadGuard {
    poison: Guard,
}

/// Proof that exclusive write access was granted, until it is given back to
/// [`RwLock::release_write`].
#[must_use]
#[derive(Debug)]
pub struct RwLockWriteGuard {
    poison: Guard,
}

impl RwLock {
    /// Whether the lock is poisoned.
    pub closed spec fn poisoned(&self) -> bool {
        self.poison@
    }

    /// Creates a new instance of an `RwLock` which is unlocked.
    pub fn new() -> (lock: RwLock)
        ensures
            !lock.poisoned(),
    {
        RwLock { inner: sys::RwLock::new(), poison: Flag::new() }
    }

    /// The lock whose poison flag is `poison`, for callers that keep the state
    /// of the lock between operations in a form of their own, which threads
    /// can share.
    pub fn restore(poison: Flag) -> (lock: RwLock)
        ensures
            lock.poisoned() == poison@,
    {
        RwLock { inner: sys::RwLock::new(), poison }
    }

    /// Determines whether the lock is poisoned.
    pub fn is_poisoned(&self) -> (poisoned: bool)
        ensures
            poisoned == self.poisoned(),
    {
        self.poison.get()
    }

    /// Locks this `RwLock` with shared read access. `outcome` is what the
    /// platform answered to the blocking read call, which returned once no
    /// writer held the lock.
    ///
    /// # Errors
    ///
    /// If a guard of this lock was released during an unwind, the guard
    /// comes inside an error. Read access is granted all the same.
    ///
    /// If the platform reported a failure, so does this call. Asking to read
    /// on the thread that holds the write lock is such a failure.
    pub fn read(&self, outcome: Result<(), RwLockError>) -> (granted: Result<
        LockResult<RwLockReadGuard>,
        InvalidState,
    >)
        ensures
            spec_acquired(outcome, self.poisoned(), InvalidState::RwLock, granted),
    {
        match self.inner.read(outcome) {
            Ok(()) => Ok(RwLockReadGuard::new(self)),
            Err(failure) => Err(failure),
        }
    }

    /// Attempts to acquire this `RwLock` with shared read access. `outcome`
    /// is what the platform answered to the non-blocking read call.
    ///
    /// # Errors
    ///
    /// If a writer holds the lock, the result is
    /// [`TryLockError::WouldBlock`]. If read access was granted and the lock
    /// is poisoned, the guard comes inside [`TryLockError::Poisoned`].
    ///
    /// If the platform reported a failure, so does this call.
    pub fn try_read(&self, outcome: Result<bool, RwLockError>) -> (granted: Result<
        TryLockResult<RwLockReadGuard>,
        InvalidState,
    >)
        ensures
            spec_try_acquired(outcome, self.poisoned(), InvalidState::RwLock, granted),
    {
        match self.inner.try_read(outcome) {
            Ok(true) => match RwLockReadGuard::new(self) {
                Ok(guard) => Ok(Ok(guard)),
                Err(error) => Ok(Err(TryLockError::Poisoned(error))),
            },
            Ok(false) => Ok(Err(TryLockError::WouldBlock)),
            Err(failure) => Err(failure),
        }
    }

    /// Locks this `RwLock` with exclusive write access. `outcome` is what the
    /// platform answered to the blocking write call, which returned once no
    /// reader and no other writer held the lock.
    ///
    /// # Errors
    ///
    /// If a guard of this lock was released during an unwind, the guard
    /// comes inside an error. Write access is granted all the same.
    ///
    /// If the platform reported a failure, so does this call.
    pub fn write(&self, outcome: Result<(), RwLockError>) -> (granted: Result<
        LockResult<RwLockWriteGuard>,
        InvalidState,
    >)
        ensures
            spec_acquired(outcome, self.poisoned(), InvalidState::RwLock, granted),
    {
        match self.inner.write(outcome) {
            Ok(()) => Ok(RwLockWriteGuard::new(self)),
            Err(failure) => Err(failure),
        }
    }

    /// Attempts to lock this `RwLock` with exclusive write access. `outcome`
    /// is what the platform answered to the non-blocking write call.
    ///
    /// # Errors
    ///
    /// If the lock is held elsewhere, the result is
    /// [`TryLockError::WouldBlock`]. If write access was granted and the lock
    /// is poisoned, the guard comes inside [`TryLockError::Poisoned`].
    ///
    /// If the platform reported a failure, so does this call.
    pub fn try_write(&self, outcome: Result<bool, RwLockError>) -> (granted: Result<
        TryLockResult<RwLockWriteGuard>,
        InvalidState,
    >)
        ensures
            spec_try_acquired(outcome, self.poisoned(), InvalidState::RwLock, granted),
    {
        match self.inner.try_write(outcome) {
            Ok(true) => match RwLockWriteGuard::new(self) {
                Ok(guard) => Ok(Ok(guard)),
                Err(error) => Ok(Err(TryLockError::Poisoned(error))),
            },
            Ok(false) => Ok(Err(TryLockError::WouldBlock)),
            Err(failure) => Err(failure),
        }
    }

    /// First half of giving a read guard back, before the platform lock is
    /// told: the lock becomes poisoned if the thread is unwinding.
    pub fn release_read(&mut self, guard: &RwLockReadGuard, panicking: bool)
        ensures
            final(self).poisoned() == poisoned_after(
                old(self).poisoned(),
                Event::Release { unwinding: panicking },
            ),
    {
        self.poison.done(&guard.poison, panicking);
    }

    /// First half of giving the write guard back, before the platform lock
    /// is told: the lock becomes poisoned if the thread is unwinding.
    pub fn release_write(&mut self, guard: &RwLockWriteGuard, panicking: bool)
        ensures
            final(self).poisoned() == poisoned_after(
                old(self).poisoned(),
                Event::Release { unwinding: panicking },
            ),
    {
        self.poison.done(&guard.poison, panicking);
    }

    /// Second half of giving a read guard back. `outcome` is what the
    /// platform answered to the read unlock call.
    pub fn read_unlock(&self, outcome: Result<(), RwLockError>) -> (settled: Result<
        (),
        InvalidState,
    >)
        ensures
            settled == spec_settled(outcome, InvalidState::RwLock),
    {
        self.inner.read_unlock(outcome)
    }

    /// Second half of giving the write guard back. `outcome` is what the
    /// platform answered to the write unlock call.
    pub fn write_unlock(&self, outcome: Result<(), RwLockError>) -> (settled: Result<
        (),
        InvalidState,
    >)
        ensures
            settled == spec_settled(outcome, InvalidState::RwLock),
    {
        self.inner.write_unlock(outcome)
    }
}

impl RwLockReadGuard {
    fn new(lock: &RwLock) -> (result: LockResult<RwLockReadGuard>)
        ensures
            result is Err <==> lock.poisoned(),
    {
        match lock.poison.guard() {
            Ok(guard) => Ok(RwLockReadGuard { poison: guard }),
            Err(error) => Err(PoisonError::new(RwLockReadGuard { poison: error.into_inner() })),
        }
    }
}

impl RwLockWriteGuard {
    fn new(lock: &RwLock) -> (result: LockResult<RwLockWriteGuard>)
        ensures
            result is Err <==> lock.poisoned(),
    {
        match lock.poison.guard() {
            Ok(guard) => Ok(RwLockWriteGuard { poison: guard }),
            Err(error) => Err(PoisonError::new(RwLockWriteGuard { poison: error.into_inner() })),
        }
    }
}

} // verus!
