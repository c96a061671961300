//! A sized buffer that text can be formatted into without allocating.

use vstd::prelude::*;
use vstd::slice::slice_subrange;
use vstd::string::StringSliceAdditionalSpecFns;
use vstd::utf8::{decode_utf8, valid_utf8};

verus! {

/// Byte size of [`WriteBuffer`].
///
/// Attempting to write more than this many bytes to the [`WriteBuffer`] will
/// result in an error.
pub const BUFFER_SIZE: usize = 4096;

/// The text did not fit into what was left of a [`WriteBuffer`].
#[derive(Debug, Clone, Copy, PartialEq, Eq, Structural)]
pub struct Overflow;

/// A fixed-capacity text buffer which implements the [`core::fmt::Write`]
/// trait.
#[derive(Debug)]
pub struct WriteBuffer {
    buf: [u8; BUFFER_SIZE],
    pos: usize,
}

impl View for WriteBuffer {
    type V = Seq<u8>;

    /// The bytes written since the buffer was created or last cleared.
    closed spec fn view(&self) -> Seq<u8> {
        self.buf@.subrange(0, self.pos as int)
    }
}

/// Whether a buffer holding `contents` has room for `bytes`.
pub open spec fn spec_fits(contents: Seq<u8>, bytes: Seq<u8>) -> bool {
    contents.len() + bytes.len() <= BUFFER_SIZE
}

/// What a buffer holding `contents` holds after `bytes` are offered to it:
/// all of them behind what was there, or, when they do not all fit, what was
/// there and nothing else.
pub open spec fn spec_write(contents: Seq<u8>, bytes: Seq<u8>) -> Seq<u8> {
    if spec_fits(contents, bytes) {
        contents + bytes
    } else {
        contents
    }
}

/// The bytes of a slice.
pub open spec fn bytes_of(bytes: &[u8]) -> Seq<u8> {
    bytes@
}

/// The bytes that encode a text.
pub open spec fn utf8_of(text: &str) -> Seq<u8> {
    text.spec_bytes()
}

/// The characters of a text.
pub open spec fn chars_of(text: &str) -> Seq<char> {
    text@
}

/// `core::fmt::Error` is a unit value; this hands out the one there is.
#[verifier::external_body]
fn fmt_error() -> core::fmt::Error {
    core::fmt::Error
}

/// `core::str::from_utf8`: the bytes as text when they are well-formed UTF-8,
/// nothing otherwise. The text is made of exactly the bytes given.
#[verifier::external_body]
fn str_from_utf8(bytes: &[u8]) -> (text: Option<&str>)
    ensures
        text is Some <==> valid_utf8(bytes@),
        text matches Some(s) ==> s.spec_bytes() == bytes@,
{
    match core::str::from_utf8(bytes) {
        Ok(s) => Some(s),
        Err(_) => None,
    }
}

impl WriteBuffer {
    #[verifier::type_invariant]
    spec fn well_formed(&self) -> bool {
        self.pos <= BUFFER_SIZE && valid_utf8(self@)
    }

    /// Create a new empty [`WriteBuffer`]
    pub fn new() -> (buffer: WriteBuffer)
        ensures
            buffer@ == Seq::<u8>::empty(),
    {
        let buffer = WriteBuffer { buf: [0u8; BUFFER_SIZE], pos: 0 };
        assert(buffer@ =~= Seq::<u8>::empty());
        buffer
    }

    /// Clear the contents in the [`WriteBuffer`]
    pub fn clear(&mut self)
        ensures
            final(self)@ == Seq::<u8>::empty(),
    {
        self.pos = 0;
        assert(self@ =~= Seq::<u8>::empty());
    }

    /// Number of bytes written so far. It never exceeds [`BUFFER_SIZE`].
    pub fn len(&self) -> (len: usize)
        ensures
            len == self@.len(),
            len <= BUFFER_SIZE,
    {
        proof {
            use_type_invariant(self);
        }
        self.pos
    }

    /// Appends the UTF-8 bytes of `text`.
    ///
    /// Either all of `text` is taken, or, when it is longer than the room
    /// that is left, nothing is and the contents stay as they were.
    pub fn write(&mut self, text: &str) -> (result: Result<(), Overflow>)
        ensures
            result is Ok <==> spec_fits(old(self)@, text.spec_bytes()),
            final(self)@ == spec_write(old(self)@, text.spec_bytes()),
    {
        proof {
            use_type_invariant(&*self);
        }
        let bytes = text.as_bytes();
        let count = bytes.len();
        if BUFFER_SIZE - self.pos < count {
            return Err(Overflow);
        }
        let start = self.pos;
        let ghost before = self.buf@;
        let mut i: usize = 0;
        while i < count
            invariant
                i <= count,
                count == bytes@.len(),
                start == self.pos,
                start + count <= BUFFER_SIZE,
                self.buf@.subrange(0, start as int) == before.subrange(0, start as int),
                self.buf@.subrange(start as int, start + i) == bytes@.subrange(0, i as int),
                valid_utf8(before.subrange(0, start as int)),
            decreases count - i,
        {
            proof {
                let next = self.buf@.update(start + i, bytes@[i as int]);
                assert(next.subrange(0, start as int) =~= self.buf@.subrange(0, start as int));
                assert(next.subrange(start as int, start + i + 1) =~= self.buf@.subrange(
                    start as int,
                    start + i,
                ).push(bytes@[i as int]));
                assert(bytes@.subrange(0, i + 1) =~= bytes@.subrange(0, i as int).push(
                    bytes@[i as int],
                ));
            }
            self.buf[start + i] = bytes[i];
            i += 1;
        }
        proof {
            let grown = self.buf@.subrange(0, start + count);
            assert(bytes@.subrange(0, count as int) =~= bytes@);
            assert(grown =~= before.subrange(0, start as int) + bytes@);
            vstd::utf8::encode_utf8_valid_utf8(text@);
            vstd::utf8::valid_utf8_concat(before.subrange(0, start as int), bytes@);
        }
        self.pos = start + count;
        Ok(())
    }
}

/// Text that fills a buffer to its last byte is taken whole. Whatever is
/// offered to the full buffer after that is refused, down to a single byte,
/// and leaves in it what it held.
pub proof fn lemma_write_to_capacity(contents: Seq<u8>, bytes: Seq<u8>, more: Seq<u8>)
    requires
        contents.len() + bytes.len() == BUFFER_SIZE,
        more.len() >= 1,
    ensures
        spec_fits(contents, bytes),
        spec_write(contents, bytes) == contents + bytes,
        !spec_fits(spec_write(contents, bytes), more),
        spec_write(spec_write(contents, bytes), more) == spec_write(contents, bytes),
{
}

/// Text is taken if and only if it is no longer than the room that is left,
/// and text that is refused changes nothing.
pub proof fn lemma_write_all_or_nothing(contents: Seq<u8>, bytes: Seq<u8>)
    requires
        contents.len() <= BUFFER_SIZE,
    ensures
        spec_fits(contents, bytes) <==> bytes.len() <= BUFFER_SIZE - contents.len(),
        spec_fits(contents, bytes) ==> spec_write(contents, bytes) == contents + bytes,
        !spec_fits(contents, bytes) ==> spec_write(contents, bytes) == contents,
        spec_write(contents, bytes).len() <= BUFFER_SIZE,
{
}

impl AsRef<[u8]> for WriteBuffer {
    /// The bytes written so far.
    fn as_ref(&self) -> (bytes: &[u8])
        ensures
            bytes_of(bytes) == self@,
    {
        proof {
            use_type_invariant(self);
        }
        slice_subrange(self.buf.as_slice(), 0, self.pos)
    }
}

impl AsRef<str> for WriteBuffer {
    /// The text written so far.
    fn as_ref(&self) -> (text: &str)
        ensures
            valid_utf8(self@),
            utf8_of(text) == self@,
            chars_of(text) == decode_utf8(self@),
    {
        proof {
            use_type_invariant(self);
        }
        let bytes = slice_subrange(self.buf.as_slice(), 0, self.pos);
        match str_from_utf8(bytes) {
            Some(text) => {
                proof {
                    vstd::utf8::encode_utf8_decode_utf8(text@);
                }
                text
            },
            None => vstd::pervasive::unreached(),
        }
    }
}

impl core::fmt::Write for WriteBuffer {
    /// [`WriteBuffer::write`], with the error that formatting expects.
    fn write_str(&mut self, string: &str) -> (result: core::fmt::Result)
        ensures
            result is Ok <==> spec_fits(old(self)@, string.spec_bytes()),
            final(self)@ == spec_write(old(self)@, string.spec_bytes()),
    {
        match self.write(string) {
            Ok(()) => Ok(()),
            Err(_) => Err(fmt_error()),
        }
    }
}

} // verus!
