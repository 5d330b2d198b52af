//! Reading a cursor byte by byte.

use crate::buf::Buf;
use vstd::prelude::*;

verus! {

/// Hands out the bytes of a cursor one at a time.
#[derive(Debug)]
pub struct IntoIter<T> {
    inner: T,
}

impl<T> IntoIter<T> {
    /// The cursor that the bytes are read from.
    pub closed spec fn spec_get_ref(&self) -> &T {
        &self.inner
    }

    /// Starts reading `inner` byte by byte.
    pub fn new(inner: T) -> (iter: IntoIter<T>)
        ensures
            *iter.get_ref() == inner,
    {
        IntoIter { inner }
    }

    /// Gives the cursor back, with the bytes that were not handed out.
    pub fn into_inner(self) -> (inner: T)
        ensures
            inner == *self.get_ref(),
    {
        self.inner
    }

    /// The cursor that the bytes are read from.
    #[verifier::when_used_as_spec(spec_get_ref)]
    pub fn get_ref(&self) -> (inner: &T)
        ensures
            inner == self.get_ref(),
    {
        &self.inner
    }

    /// The cursor that the bytes are read from, to be changed in place.
    pub fn get_mut(&mut self) -> (inner: &mut T)
        ensures
            *inner == *old(self).get_ref(),
            *final(self).get_ref() == *final(inner),
    {
        &mut self.inner
    }
}

impl<T: Buf> IntoIter<T> {
    /// The next byte of the cursor, or `None` once all have been handed out.
    pub fn next(&mut self) -> (b: Option<u8>)
        ensures
            match b {
                Some(byte) => {
                    &&& old(self).get_ref().remaining_bytes().len() > 0
                    &&& byte == old(self).get_ref().remaining_bytes()[0]
                    &&& final(self).get_ref().remaining_bytes() == old(
                        self,
                    ).get_ref().remaining_bytes().skip(1)
                },
                None => {
                    &&& old(self).get_ref().remaining_bytes().len() == 0
                    &&& *final(self).get_ref() == *old(self).get_ref()
                },
            },
    {
        if !self.inner.has_remaining() {
            return None;
        }
        let b: u8 = self.inner.chunk()[0];
        self.inner.advance(1);
        Some(b)
    }

    /// How many bytes are still to come: the number is exact, so both bounds
    /// are the same.
    pub fn size_hint(&self) -> (hint: (usize, Option<usize>))
        ensures
            hint.0 == self.get_ref().remaining_bytes().len(),
            hint.1 == Some(hint.0),
    {
        let rem: usize = self.inner.remaining();
        (rem, Some(rem))
    }
}

} // verus!
