//! The write cursor.

use crate::buf::limit;
use crate::buf::writer;
use crate::buf::Limit;
use crate::buf::Writer;
use vstd::prelude::*;

verus! {

/// The most bytes that a vector can hold.
pub const VEC_MAX_LEN: usize = usize::MAX / 2;

/// A place that bytes are written to, one after the other, for as long as
/// there is room.
pub trait BufMut: Sized {
    /// The bytes that have been written, in the order in which they were
    /// written.
    spec fn written(&self) -> Seq<u8>;

    /// How many more bytes can be written.
    spec fn room(&self) -> nat;

    /// How many more bytes can be written.
    fn remaining_mut(&self) -> (n: usize)
        ensures
            n == self.room(),
    ;

    /// Writes the bytes of `src`.
    fn put_slice(&mut self, src: &[u8])
        requires
            src@.len() <= old(self).room(),
        ensures
            final(self).written() == old(self).written() + src@,
            final(self).room() == old(self).room() - src@.len(),
    ;

    /// Whether there is room for another byte.
    fn has_remaining_mut(&self) -> (b: bool)
        ensures
            b <==> self.room() > 0,
    {
        self.remaining_mut() > 0
    }

    /// A write cursor that writes here, but no more than `limit` bytes.
    fn limit(self, limit: usize) -> (l: Limit<Self>)
        ensures
            *l.spec_get_ref() == self,
            l.spec_limit() == limit,
    {
        limit::new(self, limit)
    }

    /// This cursor, wrapped for writing from caller-supplied buffers.
    fn writer(self) -> (w: Writer<Self>)
        ensures
            *w.get_ref() == self,
    {
        writer::new(self)
    }
}

impl BufMut for Vec<u8> {
    /// A vector is written to at its end.
    open spec fn written(&self) -> Seq<u8> {
        self@
    }

    /// A vector grows as it is written to, up to the most that it can hold.
    open spec fn room(&self) -> nat {
        if self@.len() <= VEC_MAX_LEN {
            (VEC_MAX_LEN - self@.len()) as nat
        } else {
            0
        }
    }

    fn remaining_mut(&self) -> (n: usize) {
        if self.len() <= VEC_MAX_LEN {
            VEC_MAX_LEN - self.len()
        } else {
            0
        }
    }

    fn put_slice(&mut self, src: &[u8]) {
        self.extend_from_slice(src);
    }
}

} // verus!
