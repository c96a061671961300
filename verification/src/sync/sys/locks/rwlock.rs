//! Reader/writer lock rules used in enclave environments.

use crate::sync::sys::locks::{spec_settled, spec_tried, InvalidState};
use vstd::prelude::*;

verus! {

/// What the platform reader/writer lock reports when an operation fails.
#[derive(Debug, Clone, Copy, PartialEq, Eq, Structural)]
pub enum RwLockError {
    /// Invalid operation on the lock.
    Invalid,
    /// The lock is already locked for write by this thread.
    WriteLocked,
    /// Ran out of memory.
    OutOfMemory,
    /// The lock is currently locked by another thread.
    LockNotOwned,
}

/// The reader/writer lock backend behind the common `RwLock` interface.
///
/// Read locks are implemented using a reference count. This means that clients
/// are responsible for managing which threads hold the read locks and ensuring
/// threads only unlock if they are currently holding a reader lock. Write locks
/// do track which thread owns them.
#[derive(Debug, Clone, Copy)]
pub struct RwLock {}

impl RwLock {
    /// Create a new [`RwLock`]
    pub fn new() -> RwLock {
        RwLock {  }
    }

    /// Acquire a read lock on the [`RwLock`]
    ///
    /// `outcome` is the platform's answer to the blocking read call.
    ///
    /// NB: This acquires **a** reader lock on the [`RwLock`] instance, it does
    ///     not keep track of which threads have reader locks.
    ///
    /// # Errors
    /// The [`RwLock`] got into an invalid state. Invalid states include:
    /// - Corrupted underlying data
    /// - Trying to obtain a read lock when thread has write lock
    pub fn read(&self, outcome: Result<(), RwLockError>) -> (settled: Result<(), InvalidState>)
        ensures
            settled == spec_settled(outcome, InvalidState::RwLock),
    {
        match outcome {
            Ok(()) => Ok(()),
            Err(_) => Err(InvalidState::RwLock),
        }
    }

    /// Try to acquire a read lock on the [`RwLock`]
    ///
    /// `outcome` is the platform's answer to the non-blocking read call.
    ///
    /// # Returns
    /// `true` if a read lock was acquired, `false` otherwise.
    pub fn try_read(&self, outcome: Result<bool, RwLockError>) -> (tried: Result<
        bool,
        InvalidState,
    >)
        ensures
            tried == spec_tried(outcome, InvalidState::RwLock),
    {
        match outcome {
            Ok(acquired) => Ok(acquired),
            Err(_) => Err(InvalidState::RwLock),
        }
    }

    /// Acquire a write lock on the [`RwLock`]
    ///
    /// `outcome` is the platform's answer to the blocking write call.
    ///
    /// # Errors
    /// The [`RwLock`] got into an invalid state. Invalid states include:
    /// - Corrupted underlying data
    /// - Trying to obtain a write lock when the thread already has the write
    ///   lock
    pub fn write(&self, outcome: Result<(), RwLockError>) -> (settled: Result<(), InvalidState>)
        ensures
            settled == spec_settled(outcome, InvalidState::RwLock),
    {
        match outcome {
            Ok(()) => Ok(()),
            Err(_) => Err(InvalidState::RwLock),
        }
    }

    /// Try to acquire a write lock on the [`RwLock`]
    ///
    /// `outcome` is the platform's answer to the non-blocking write call.
    ///
    /// # Returns
    /// `true` if the write lock was acquired, `false` otherwise.
    pub fn try_write(&self, outcome: Result<bool, RwLockError>) -> (tried: Result<
        bool,
        InvalidState,
    >)
        ensures
            tried == spec_tried(outcome, InvalidState::RwLock),
    {
        match outcome {
            Ok(acquired) => Ok(acquired),
            Err(_) => Err(InvalidState::RwLock),
        }
    }

    /// Release a read lock on the [`RwLock`]
    ///
    /// `outcome` is the platform's answer to the read unlock call.
    ///
    /// NB: This release **a** reader lock on the [`RwLock`] instance, it does
    ///     not validate that the current thread created the reader lock.
    ///
    /// # Errors
    /// The [`RwLock`] got into an invalid state. Invalid states include:
    /// - Corrupted underlying data
    /// - Trying to unlock when there are no read locks currently held
    pub fn read_unlock(&self, outcome: Result<(), RwLockError>) -> (settled: Result<
        (),
        InvalidState,
    >)
        ensures
            settled == spec_settled(outcome, InvalidState::RwLock),
    {
        match outcome {
            Ok(()) => Ok(()),
            Err(_) => Err(InvalidState::RwLock),
        }
    }

    /// Release the write lock on the [`RwLock`]
    ///
    /// `outcome` is the platform's answer to the write unlock call.
    ///
    /// # Errors
    /// The [`RwLock`] got into an invalid state. Invalid states include:
    /// - Corrupted underlying data
    /// - Trying to unlock when the current thread doesn't hold the write lock
    pub fn write_unlock(&self, outcome: Result<(), RwLockError>) -> (settled: Result<
        (),
        InvalidState,
    >)
        ensures
            settled == spec_settled(outcome, InvalidState::RwLock),
    {
        match outcome {
            Ok(()) => Ok(()),
            Err(_) => Err(InvalidState::RwLock),
        }
    }
}

} // verus!
