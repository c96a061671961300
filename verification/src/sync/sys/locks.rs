//! Platform specific concurrency locking primitives.
//!
//! The platform's lock, reader/writer lock and condition variable block and
//! wake threads; nothing in this crate can do that for them. Each operation
//! here therefore takes what the platform answered to the call of the same
//! name and says what follows from it. A failure of state is never retried:
//! it is handed back as an [`InvalidState`], on which the caller stops.

use vstd::prelude::*;

pub mod condvar;
pub mod mutex;
pub mod rwlock;

pub use condvar::{Condvar, CondvarError};
pub use mutex::{Mutex, MutexError};
pub use rwlock::{RwLock, RwLockError};

verus! {

/// A platform primitive reported a failure of state: its data is corrupted,
/// or it was used against its protocol. There is no safe way to go on.
#[derive(Debug, Clone, Copy, PartialEq, Eq, Structural)]
pub enum InvalidState {
    /// The platform mutex failed.
    Mutex,
    /// The platform reader/writer lock failed.
    RwLock,
    /// A wait on the platform condition variable failed.
    CondvarWait,
    /// A notification through the platform condition variable failed.
    CondvarNotify,
}

/// The text that goes with each failure.
pub open spec fn spec_message(state: InvalidState) -> Seq<char> {
    match state {
        InvalidState::Mutex => "Mutex got into an invalid state."@,
        InvalidState::RwLock => "RwLock got into an invalid state."@,
        InvalidState::CondvarWait =>
            "Condition variable is invalid or mutex is not locked by current thread"@,
        InvalidState::CondvarNotify => "Condition variable is in an invalid state"@,
    }
}

impl InvalidState {
    /// What to say when stopping on this failure.
    pub fn message(&self) -> (text: &'static str)
        ensures
            text@ == spec_message(*self),
    {
        match self {
            InvalidState::Mutex => "Mutex got into an invalid state.",
            InvalidState::RwLock => "RwLock got into an invalid state.",
            InvalidState::CondvarWait =>
                "Condition variable is invalid or mutex is not locked by current thread",
            InvalidState::CondvarNotify => "Condition variable is in an invalid state",
        }
    }
}

/// What a blocking call that the platform answered with `outcome` comes to:
/// done, or stopped on `failure`.
pub open spec fn spec_settled<E>(outcome: Result<(), E>, failure: InvalidState) -> Result<
    (),
    InvalidState,
> {
    match outcome {
        Ok(()) => Ok(()),
        Err(_) => Err(failure),
    }
}

/// What a non-blocking call that the platform answered with `outcome` comes
/// to: acquired or not, or stopped on `failure`.
pub open spec fn spec_tried<E>(outcome: Result<bool, E>, failure: InvalidState) -> Result<
    bool,
    InvalidState,
> {
    match outcome {
        Ok(acquired) => Ok(acquired),
        Err(_) => Err(failure),
    }
}

} // verus!
