//! Common backend panic implementation.

use vstd::prelude::*;

pub mod log;
pub mod panic_count;

verus! {

/// What the panic entry point does after it has counted the panic.
#[derive(Debug, Clone, Copy, PartialEq, Eq, Structural)]
pub enum PanicAction {
    /// Terminate at once: the thread panicked while it was handling a panic.
    Abort,
    /// Log the panic information, then terminate.
    LogThenAbort,
}

/// What follows a panic that brought the count of the thread to `panics`.
pub open spec fn spec_action(panics: nat) -> PanicAction {
    if panics > 1 {
        PanicAction::Abort
    } else {
        PanicAction::LogThenAbort
    }
}

/// The panic entry point: counts the panic on the thread that `count`
/// belongs to and decides what to do about it.
///
/// If the handler was entered more than once then the thread must have
/// panicked while trying to handle a panic. Fail hard in these instances,
/// nothing more can be done.
pub fn on_panic(count: &mut panic_count::PanicCount) -> (action: PanicAction)
    requires
        old(count)@ < usize::MAX,
    ensures
        final(count)@ == old(count)@ + 1,
        action == spec_action(final(count)@),
{
    let panics = panic_count::increase(count);
    if panics > 1 {
        PanicAction::Abort
    } else {
        PanicAction::LogThenAbort
    }
}

/// Whether a thread whose panics are counted by `count` is unwinding.
pub fn panicking(count: &panic_count::PanicCount) -> (unwinding: bool)
    ensures
        unwinding == count.is_unwinding(),
{
    !panic_count::count_is_zero(count)
}

} // verus!
