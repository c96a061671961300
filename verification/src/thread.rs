//! The small part of thread support that an enclave has.

use crate::panicking;
use crate::panicking::panic_count::PanicCount;
use vstd::prelude::*;

verus! {

/// Determines whether the thread that owns `count` is unwinding because of
/// panic.
///
/// A common use of this feature is to poison shared resources, by checking
/// `panicking` when a guard is released.
#[inline]
#[must_use]
pub fn panicking(count: &PanicCount) -> (unwinding: bool)
    ensures
        unwinding == count.is_unwinding(),
{
    panicking::panicking(count)
}

} // verus!
