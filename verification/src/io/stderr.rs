//! The sink for the diagnostic output of an enclave.
//!
//! Diagnostic bytes leave an enclave through one call to the host. On the
//! host's side they go to a [`Stream`], which by default hands them on to
//! the host's standard error. Consumers can redirect them by providing
//! another function via [`stderr_sink`].

use vstd::prelude::*;

verus! {

/// The stream that diagnostic bytes from an enclave are written to: a
/// function that writes the entire contents of the buffer it is given.
///
/// The embedding application keeps one stream for the whole process, behind
/// a lock.
pub struct Stream<F> {
    write_all: F,
}

impl<F: Fn(&[u8])> Stream<F> {
    /// The function that the stream writes with.
    pub closed spec fn sink(&self) -> F {
        self.write_all
    }

    /// A stream that writes with `write_all`.
    pub fn new(write_all: F) -> (stream: Self)
        ensures
            stream.sink() == write_all,
    {
        Stream { write_all }
    }

    /// Hands `bytes` to the function that the stream writes with.
    ///
    /// Whether and how much of them that function delivers is its own
    /// affair: nothing comes back, and a failed delivery is not reported.
    pub fn write_all(&self, bytes: &[u8])
        requires
            call_requires(self.sink(), (bytes,)),
        ensures
            call_ensures(self.sink(), (bytes,), ()),
    {
        (self.write_all)(bytes)
    }
}

/// Specify the function to use for stderr messages
///
/// The stream writes with `write_all` from now on, whatever it wrote with
/// before: the last call wins.
///
/// # Arguments
/// * `stream` - The stream that takes the stderr messages of the enclave
/// * `write_all` - The function to use for writing stderr from the enclave
pub fn stderr_sink<F: Fn(&[u8])>(stream: &mut Stream<F>, write_all: F)
    ensures
        final(stream).sink() == write_all,
{
    stream.write_all = write_all;
}

} // verus!
