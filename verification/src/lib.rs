//! Synchronization primitives and panic-time diagnostics for code that runs
//! inside an enclave.
//!
//! An enclave has no operating system underneath it. Its locks are those of
//! the enclave runtime, its threads are entered from outside, and a panic
//! ends the enclave. This crate holds what is decided on the enclave's side
//! of all that:
//!
//! - [`sync`]: locks that know whether they are poisoned, over what the
//!   platform locks answer;
//! - [`panicking`] and [`thread`]: the count of panics that a thread is
//!   handling, and what the panic entry point does with it;
//! - [`io`]: the fixed-size buffer that a panic message is formatted into,
//!   and the sink that takes diagnostic bytes out of the enclave.
//!
//! Nothing in this crate blocks, allocates on the panic path, or panics.

pub mod io;
pub mod panicking;
pub mod sync;
pub mod thread;

pub use io::write_buffer::WriteBuffer;
pub use panicking::panic_count;
pub use sync::{
    Condvar, LockResult, Mutex, MutexGuard, PoisonError, RwLock, RwLockReadGuard,
    RwLockWriteGuard, TryLockError, TryLockResult,
};
