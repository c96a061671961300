//! The part of `core::fmt` that formatting into a buffer needs.

use vstd::prelude::*;

verus! {

/// `core::fmt::Error`, the error of a formatting operation. It says that a
/// write failed and nothing else.
#[verifier::external_type_specification]
#[verifier::external_body]
pub struct ExFmtError(core::fmt::Error);

} // verus!
