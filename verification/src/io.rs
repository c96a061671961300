//! Diagnostic output of an enclave.

pub mod fmt;
pub mod stderr;
pub mod write_buffer;

pub use stderr::{stderr_sink, Stream};
pub use write_buffer::{Overflow, WriteBuffer, BUFFER_SIZE};
