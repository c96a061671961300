//! Locks with poisoning, and a condition variable for them.

pub mod condvar;
pub mod mutex;
pub mod poison;
pub mod rwlock;
pub mod sys;

pub use condvar::{Condvar, WaitWhile};
pub use mutex::{Mutex, MutexGuard};
pub use poison::{LockResult, PoisonError, TryLockError, TryLockResult};
pub use rwlock::{RwLock, RwLockReadGuard, RwLockWriteGuard};
