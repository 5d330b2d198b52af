//! Writing caller-supplied buffers to a write cursor.

use crate::buf::BufMut;
use vstd::prelude::*;

verus! {

/// Writes to a cursor the way a byte stream is written: from a buffer that
/// the caller supplies, as much as there is room for.
#[derive(Debug)]
pub struct Writer<B> {
    buf: B,
}

/// Wraps `buf` for writing as a stream.
pub fn new<B>(buf: B) -> (writer: Writer<B>)
    ensures
        *writer.get_ref() == buf,
{
    Writer { buf }
}

impl<B> Writer<B> {
    /// The cursor that is written to.
    pub closed spec fn spec_get_ref(&self) -> &B {
        &self.buf
    }

    /// The cursor that is written to.
    #[verifier::when_used_as_spec(spec_get_ref)]
    pub fn get_ref(&self) -> (buf: &B)
        ensures
            buf == self.get_ref(),
    {
        &self.buf
    }

    /// The cursor that is written to, to be changed in place.
    pub fn get_mut(&mut self) -> (buf: &mut B)
        ensures
            *buf == *old(self).get_ref(),
            *final(self).get_ref() == *final(buf),
    {
        &mut self.buf
    }

    /// Gives the cursor back, with what was written to it.
    pub fn into_inner(self) -> (buf: B)
        ensures
            buf == *self.get_ref(),
    {
        self.buf
    }
}

impl<B: BufMut> Writer<B> {
    /// Writes from the front of `src` as many bytes as the cursor has room
    /// for, and returns their number.
    pub fn write(&mut self, src: &[u8]) -> (n: usize)
        ensures
            n == src@.len() || n == old(self).get_ref().room(),
            n <= src@.len(),
            n <= old(self).get_ref().room(),
            final(self).get_ref().written() == old(self).get_ref().written() + src@.take(n as int),
            final(self).get_ref().room() == old(self).get_ref().room() - n,
    {
        let room: usize = self.buf.remaining_mut();
        let n: usize = if room < src.len() {
            room
        } else {
            src.len()
        };
        self.buf.put_slice(vstd::slice::slice_subrange(src, 0, n));
        n
    }

    /// Nothing is held back, so there is nothing to flush.
    pub fn flush(&mut self)
        ensures
            *final(self) == *old(self),
    {
    }
}

} // verus!
