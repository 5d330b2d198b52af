//! Reading a cursor into caller-supplied buffers.

use crate::buf::Buf;
use vstd::prelude::*;

verus! {

/// Reads a cursor the way a byte stream is read: into a buffer that the
/// caller supplies, as much as fits.
#[derive(Debug)]
pub struct Reader<B> {
    buf: B,
}

/// Wraps `buf` for reading as a stream.
pub fn new<B>(buf: B) -> (reader: Reader<B>)
    ensures
        *reader.get_ref() == buf,
{
    Reader { buf }
}

impl<B> Reader<B> {
    /// The cursor that is read from.
    pub closed spec fn spec_get_ref(&self) -> &B {
        &self.buf
    }

    /// The cursor that is read from.
    #[verifier::when_used_as_spec(spec_get_ref)]
    pub fn get_ref(&self) -> (buf: &B)
        ensures
            buf == self.get_ref(),
    {
        &self.buf
    }

    /// The cursor that is read from, to be changed in place.
    pub fn get_mut(&mut self) -> (buf: &mut B)
        ensures
            *buf == *old(self).get_ref(),
            *final(self).get_ref() == *final(buf),
    {
        &mut self.buf
    }

    /// Gives the cursor back, with the bytes that were not read.
    pub fn into_inner(self) -> (buf: B)
        ensures
            buf == *self.get_ref(),
    {
        self.buf
    }
}

impl<B: Buf> Reader<B> {
    /// Reads into the front of `dst` as many bytes as the cursor has and
    /// `dst` can hold, and returns their number. The rest of `dst` is left
    /// as it was.
    pub fn read(&mut self, dst: &mut [u8]) -> (n: usize)
        ensures
            n == old(dst)@.len() || n == old(self).get_ref().remaining_bytes().len(),
            n <= old(dst)@.len(),
            n <= old(self).get_ref().remaining_bytes().len(),
            final(dst)@ == old(self).get_ref().remaining_bytes().take(n as int) + old(dst)@.skip(
                n as int,
            ),
            final(self).get_ref().remaining_bytes() == old(self).get_ref().remaining_bytes().skip(
                n as int,
            ),
    {
        let rem: usize = self.buf.remaining();
        let len: usize = if rem < dst.len() {
            rem
        } else {
            dst.len()
        };
        let (head, tail) = dst.split_at_mut(len);
        self.buf.copy_to_slice(head);
        assert(dst@ =~= old(self).get_ref().remaining_bytes().take(len as int) + old(dst)@.skip(
            len as int,
        ));
        len
    }

    /// The bytes that can be read without moving on: the cursor's first
    /// piece.
    pub fn fill_buf(&self) -> (c: &[u8])
        ensures
            c@.is_prefix_of(self.get_ref().remaining_bytes()),
            self.get_ref().remaining_bytes().len() > 0 ==> c@.len() > 0,
    {
        self.buf.chunk()
    }

    /// Marks `amt` bytes as read.
    pub fn consume(&mut self, amt: usize)
        requires
            amt <= old(self).get_ref().remaining_bytes().len(),
        ensures
            final(self).get_ref().remaining_bytes() == old(self).get_ref().remaining_bytes().skip(
                amt as int,
            ),
    {
        self.buf.advance(amt)
    }
}

} // verus!
