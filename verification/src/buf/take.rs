//! A cursor that stops after a given number of bytes.

use crate::buf::Buf;
use crate::bytes::Bytes;
use vstd::prelude::*;

verus! {

/// A cursor that reads from another one, but no more than `limit` bytes.
///
/// The limit may be larger than what the inner cursor holds: then all of the
/// inner cursor's bytes can be read, and no more.
#[derive(Debug)]
pub struct Take<T> {
    inner: T,
    limit: usize,
}

/// Wraps `inner` so that at most `limit` bytes can be read from it.
pub fn new<T>(inner: T, limit: usize) -> (take: Take<T>)
    ensures
        *take.get_ref() == inner,
        take.limit() == limit,
{
    Take { inner, limit }
}

impl<T> Take<T> {
    /// The inner cursor.
    pub closed spec fn spec_get_ref(&self) -> &T {
        &self.inner
    }

    /// The number of bytes that may still be read.
    pub closed spec fn spec_limit(&self) -> usize {
        self.limit
    }

    /// Gives the inner cursor back.
    pub fn into_inner(self) -> (inner: T)
        ensures
            inner == *self.get_ref(),
    {
        self.inner
    }

    /// The inner cursor.
    #[verifier::when_used_as_spec(spec_get_ref)]
    pub fn get_ref(&self) -> (inner: &T)
        ensures
            inner == self.get_ref(),
    {
        &self.inner
    }

    /// The inner cursor, to be changed in place. The limit stays as it is.
    pub fn get_mut(&mut self) -> (inner: &mut T)
        ensures
            *inner == *old(self).get_ref(),
            *final(self).get_ref() == *final(inner),
            final(self).limit() == old(self).limit(),
    {
        &mut self.inner
    }

    /// The number of bytes that may still be read. The inner cursor may hold
    /// fewer.
    #[verifier::when_used_as_spec(spec_limit)]
    pub fn limit(&self) -> (limit: usize)
        ensures
            limit == self.limit(),
    {
        self.limit
    }

    /// Sets the number of bytes that may still be read.
    pub fn set_limit(&mut self, lim: usize)
        ensures
            final(self).limit() == lim,
            *final(self).get_ref() == *old(self).get_ref(),
    {
        self.limit = lim
    }
}

impl<T: Buf> Buf for Take<T> {
    /// The inner cursor's bytes, cut off at the limit.
    open spec fn remaining_bytes(&self) -> Seq<u8> {
        let all = self.get_ref().remaining_bytes();
        if self.limit() < all.len() {
            all.take(self.limit() as int)
        } else {
            all
        }
    }

    fn remaining(&self) -> (n: usize) {
        let inner: usize = self.inner.remaining();
        if inner < self.limit {
            inner
        } else {
            self.limit
        }
    }

    fn chunk(&self) -> (c: &[u8]) {
        let bytes = self.inner.chunk();
        let end: usize = if bytes.len() < self.limit {
            bytes.len()
        } else {
            self.limit
        };
        vstd::slice::slice_subrange(bytes, 0, end)
    }

    /// Moves the inner cursor, and lowers the limit by as much.
    fn advance(&mut self, cnt: usize)
        ensures
            final(self).limit() == old(self).limit() - cnt,
            final(self).get_ref().remaining_bytes() == old(self).get_ref().remaining_bytes().skip(
                cnt as int,
            ),
    {
        self.inner.advance(cnt);
        self.limit = self.limit - cnt;
        assert(self.remaining_bytes() =~= old(self).remaining_bytes().skip(cnt as int));
    }

    /// Takes the bytes out of the inner cursor, and lowers the limit by as
    /// much.
    fn copy_to_bytes(&mut self, len: usize) -> (r: Bytes)
        ensures
            final(self).limit() == old(self).limit() - len,
            final(self).get_ref().remaining_bytes() == old(self).get_ref().remaining_bytes().skip(
                len as int,
            ),
    {
        let r = self.inner.copy_to_bytes(len);
        self.limit = self.limit - len;
        assert(r@ =~= old(self).remaining_bytes().take(len as int));
        assert(self.remaining_bytes() =~= old(self).remaining_bytes().skip(len as int));
        r
    }
}

} // verus!
