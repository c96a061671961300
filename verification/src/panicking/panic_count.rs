//! Number of panics that are currently being handled on one thread.
//!
//! Every thread of execution owns one [`PanicCount`], which starts at zero.
//! Nothing here is shared between threads: each thread unwinds on its own.

use vstd::prelude::*;

verus! {

/// Panic count of one thread.
#[derive(Debug)]
pub struct PanicCount {
    panics: usize,
}

impl View for PanicCount {
    type V = nat;

    /// The number of panics being handled.
    closed spec fn view(&self) -> nat {
        self.panics as nat
    }
}

impl PanicCount {
    /// The count of a thread that is not handling any panic.
    pub fn new() -> (count: PanicCount)
        ensures
            count@ == 0,
    {
        PanicCount { panics: 0 }
    }

    /// A thread is unwinding while it handles at least one panic.
    pub open spec fn is_unwinding(&self) -> bool {
        self@ > 0
    }
}

/// Increase the number of panics that are currently happening
///
/// # Returns
/// The number of panics that are currently happening, including this
/// increase.
pub fn increase(count: &mut PanicCount) -> (panics: usize)
    requires
        old(count)@ < usize::MAX,
    ensures
        final(count)@ == old(count)@ + 1,
        panics == final(count)@,
{
    let panics = count.panics + 1;
    count.panics = panics;
    panics
}

/// Decrease the number of panics that are currently happening
pub fn decrease(count: &mut PanicCount)
    requires
        old(count)@ > 0,
    ensures
        final(count)@ == old(count)@ - 1,
{
    let panics = count.panics - 1;
    count.panics = panics;
}

/// Get the current number of panics that are in process
#[must_use]
pub fn get_count(count: &PanicCount) -> (panics: usize)
    ensures
        panics == count@,
{
    count.panics
}

/// Returns `true` when the there are no panics currently being handled
#[must_use]
pub fn count_is_zero(count: &PanicCount) -> (zero: bool)
    ensures
        zero == (count@ == 0),
{
    get_count(count) == 0
}

} // verus!
