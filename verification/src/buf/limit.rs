//! A write cursor that stops after a given number of bytes.

use crate::buf::BufMut;
use vstd::prelude::*;

verus! {

/// A write cursor that writes to another one, but no more than `limit`
/// bytes.
#[derive(Debug)]
pub struct Limit<T> {
    inner: T,
    limit: usize,
}

/// Wraps `inner` so that at most `limit` bytes can be written to it.
pub fn new<T>(inner: T, limit: usize) -> (l: Limit<T>)
    ensures
        *l.get_ref() == inner,
        l.limit() == limit,
{
    Limit { inner, limit }
}

impl<T> Limit<T> {
    /// The inner cursor.
    pub closed spec fn spec_get_ref(&self) -> &T {
        &self.inner
    }

    /// The number of bytes that may still be written.
    pub closed spec fn spec_limit(&self) -> usize {
        self.limit
    }

    /// Gives the inner cursor back.
    pub fn into_inner(self) -> (inner: T)
        ensures
            inner == *self.get_ref(),
    {
        self.inner
    }

    /// The inner cursor.
    #[verifier::when_used_as_spec(spec_get_ref)]
    pub fn get_ref(&self) -> (inner: &T)
        ensures
            inner == self.get_ref(),
    {
        &self.inner
    }

    /// The inner cursor, to be changed in place. The limit stays as it is.
    pub fn get_mut(&mut self) -> (inner: &mut T)
        ensures
            *inner == *old(self).get_ref(),
            *final(self).get_ref() == *final(inner),
            final(self).limit() == old(self).limit(),
    {
        &mut self.inner
    }

    /// The number of bytes that may still be written. The inner cursor may
    /// have room for fewer.
    #[verifier::when_used_as_spec(spec_limit)]
    pub fn limit(&self) -> (limit: usize)
        ensures
            limit == self.limit(),
    {
        self.limit
    }

    /// Sets the number of bytes that may still be written.
    pub fn set_limit(&mut self, lim: usize)
        ensures
            final(self).limit() == lim,
            *final(self).get_ref() == *old(self).get_ref(),
    {
        self.limit = lim
    }
}

impl<T: BufMut> BufMut for Limit<T> {
    /// What has been written to the inner cursor.
    open spec fn written(&self) -> Seq<u8> {
        self.spec_get_ref().written()
    }

    /// The inner cursor's room, cut off at the limit.
    open spec fn room(&self) -> nat {
        if self.spec_get_ref().room() < self.spec_limit() {
            self.spec_get_ref().room()
        } else {
            self.spec_limit() as nat
        }
    }

    fn remaining_mut(&self) -> (n: usize) {
        let inner: usize = self.inner.remaining_mut();
        if inner < self.limit {
            inner
        } else {
            self.limit
        }
    }

    /// Writes to the inner cursor, and lowers the limit by as much.
    fn put_slice(&mut self, src: &[u8])
        ensures
            final(self).spec_limit() == old(self).spec_limit() - src@.len(),
    {
        self.inner.put_slice(src);
        self.limit = self.limit - src.len();
    }
}

} // verus!
