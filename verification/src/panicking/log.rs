//! Logging utilities used during panic handling

use crate::io::write_buffer::WriteBuffer;
use crate::sync::poison::LockResult;
use vstd::prelude::*;
use vstd::string::StringSliceAdditionalSpecFns;

verus! {

/// What is logged when the panic information could not be formatted.
pub const FORMAT_FAILED: &'static str = "Failed to format panic log info.";

/// What is logged when the lock of the message buffer is poisoned.
pub const LOCK_POISONED: &'static str = "Mutex for panic logging has been poisoned.";

/// The message for a panic whose information was formatted into `buffer`:
/// what the buffer holds if that went well, [`FORMAT_FAILED`] if it did not.
pub fn panic_message<'a>(buffer: &'a WriteBuffer, formatted: bool) -> (message: &'a [u8])
    ensures
        message@ == if formatted {
            buffer@
        } else {
            FORMAT_FAILED.spec_bytes()
        },
{
    if formatted {
        buffer.as_ref()
    } else {
        FORMAT_FAILED.as_bytes()
    }
}

/// Picks the message to log during a panic.
///
/// `locked` is what locking the message buffer gave. The buffer is shared
/// by all panics, so it is cleared first. Then `format` writes the panic
/// information into it. If for some reason that fails, as it does when the
/// information exceeds the size of the buffer, the message is
/// [`FORMAT_FAILED`]; if the lock is poisoned, the buffer is left alone and
/// the message is [`LOCK_POISONED`].
///
/// No memory is allocated on the way: a failure to allocate could be the
/// cause of the panic.
///
/// # Arguments:
/// * `locked` - The message buffer, as its lock handed it out
/// * `format` - Formats the panic information into the buffer it is given
pub fn log_panic_info<'a, F>(locked: LockResult<&'a mut WriteBuffer>, format: F) -> (message:
    &'a [u8]) where F: FnOnce(&mut WriteBuffer) -> Result<(), core::fmt::Error>
    requires
        forall|cleared: &mut WriteBuffer|
            cleared@ == Seq::<u8>::empty() ==> call_requires(format, (cleared,)),
    ensures
        match locked {
            Ok(buffer) => exists|cleared: &mut WriteBuffer, formatted: Result<(), core::fmt::Error>|
                {
                    &&& cleared@ == Seq::<u8>::empty()
                    &&& *final(cleared) == *final(buffer)
                    &&& #[trigger] call_ensures(format, (cleared,), formatted)
                    &&& message@ == if formatted is Ok {
                        final(buffer)@
                    } else {
                        FORMAT_FAILED.spec_bytes()
                    }
                },
            Err(_) => message@ == LOCK_POISONED.spec_bytes(),
        },
{
    match locked {
        Ok(buffer) => {
            buffer.clear();
            let formatted = format(buffer).is_ok();
            panic_message(buffer, formatted)
        },
        Err(_) => LOCK_POISONED.as_bytes(),
    }
}

} // verus!
