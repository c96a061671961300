//! Condition variable rules used in enclave environments.

use crate::sync::sys::locks::{spec_settled, InvalidState};
use vstd::prelude::*;

verus! {

/// What the platform condition variable reports when an operation fails.
#[derive(Debug, Clone, Copy, PartialEq, Eq, Structural)]
pub enum CondvarError {
    /// Invalid operation on the condition variable.
    Invalid,
    /// The paired mutex is locked by another thread.
    MutexLock,
    /// Ran out of memory.
    OutOfMemory,
}

/// The condition variable backend behind the common `Condvar` interface.
#[derive(Debug, Clone, Copy)]
pub struct Condvar {}

impl Condvar {
    /// Create a new condition variable
    pub fn new() -> Condvar {
        Condvar {  }
    }

    /// Wait on the condition variable
    ///
    /// `outcome` is the platform's answer to the wait call, made with the
    /// mutex that is paired with this [`Condvar`]. On `Ok` the thread was
    /// woken and holds that mutex again.
    ///
    /// # Errors
    /// - the condition variable got into an invalid state
    /// - the mutex is not locked by the current thread
    pub fn wait(&self, outcome: Result<(), CondvarError>) -> (settled: Result<(), InvalidState>)
        ensures
            settled == spec_settled(outcome, InvalidState::CondvarWait),
    {
        match outcome {
            Ok(()) => Ok(()),
            Err(_) => Err(InvalidState::CondvarWait),
        }
    }

    /// Notify the next waiting thread (if any) of the condition variable event
    ///
    /// `outcome` is the platform's answer to the call.
    ///
    /// # Errors
    /// The condition variable got into an invalid state
    pub fn notify_one(&self, outcome: Result<(), CondvarError>) -> (settled: Result<
        (),
        InvalidState,
    >)
        ensures
            settled == spec_settled(outcome, InvalidState::CondvarNotify),
    {
        match outcome {
            Ok(()) => Ok(()),
            Err(_) => Err(InvalidState::CondvarNotify),
        }
    }

    /// Notify *all* waiting threads of the condition variable event
    ///
    /// `outcome` is the platform's answer to the call.
    ///
    /// # Errors
    /// - the condition variable got into an invalid state
    /// - ran out of memory while notifying other threads.
    pub fn notify_all(&self, outcome: Result<(), CondvarError>) -> (settled: Result<
        (),
        InvalidState,
    >)
        ensures
            settled == spec_settled(outcome, InvalidState::CondvarNotify),
    {
        match outcome {
            Ok(()) => Ok(()),
            Err(_) => Err(InvalidState::CondvarNotify),
        }
    }
}

} // verus!
