//! Platform specific abstraction.
//!
//! The locks of an enclave are the platform's. This module holds what the
//! locks of this crate make of the answers that the platform gives.

pub mod locks;
