//! Mutex rules used in enclave environments.
//!
//! The platform mutex is not re-entrant: a thread that locks it while
//! holding it is told so, and that is a failure of state like any other.

use crate::sync::sys::locks::{spec_settled, spec_tried, InvalidState};
use vstd::prelude::*;

verus! {

/// What the platform mutex reports when an operation fails.
#[derive(Debug, Clone, Copy, PartialEq, Eq, Structural)]
pub enum MutexError {
    /// Invalid operation on the mutex.
    Invalid,
    /// Mutex is currently locked by another thread.
    LockNotOwned,
}

/// The mutex backend behind the common `Mutex` interface.
#[derive(Debug, Clone, Copy)]
pub struct Mutex {}

impl Mutex {
    /// Create a new Mutex
    pub fn new() -> Mutex {
        Mutex {  }
    }

    /// Lock the Mutex
    ///
    /// `outcome` is the platform's answer to the blocking lock call. The
    /// mutex is held on `Ok`.
    ///
    /// # Errors
    /// The mutex got into an invalid state. Invalid states include:
    /// - Corrupted underlying data
    /// - Trying to lock when mutex is already locked
    pub fn lock(&self, outcome: Result<(), MutexError>) -> (settled: Result<(), InvalidState>)
        ensures
            settled == spec_settled(outcome, InvalidState::Mutex),
    {
        match outcome {
            Ok(()) => Ok(()),
            Err(_) => Err(InvalidState::Mutex),
        }
    }

    /// UnLock the Mutex
    ///
    /// `outcome` is the platform's answer to the unlock call.
    ///
    /// # Errors
    /// The mutex got into an invalid state. Invalid states include:
    /// - Corrupted underlying data
    /// - Trying to unlock when mutex is already unlocked
    pub fn unlock(&self, outcome: Result<(), MutexError>) -> (settled: Result<(), InvalidState>)
        ensures
            settled == spec_settled(outcome, InvalidState::Mutex),
    {
        match outcome {
            Ok(()) => Ok(()),
            Err(_) => Err(InvalidState::Mutex),
        }
    }

    /// Try to lock the mutex
    ///
    /// `outcome` is the platform's answer to the non-blocking lock call.
    ///
    /// # Returns
    /// `true` if the mutex was locked, `false` otherwise.
    pub fn try_lock(&self, outcome: Result<bool, MutexError>) -> (tried: Result<bool, InvalidState>)
        ensures
            tried == spec_tried(outcome, InvalidState::Mutex),
    {
        match outcome {
            Ok(acquired) => Ok(acquired),
            Err(_) => Err(InvalidState::Mutex),
        }
    }
}

} // verus!
