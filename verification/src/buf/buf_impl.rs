//! The read cursor.

use crate::buf::reader;
use crate::buf::take;
use crate::buf::Reader;
use crate::buf::Take;
use crate::bytes::Bytes;
use std::io::IoSlice;
use vstd::prelude::*;

verus! {

/// The value of two bytes read as an unsigned integer, most significant byte
/// first.
pub open spec fn u16_from_be(hi: u8, lo: u8) -> u16 {
    (hi * 256 + lo) as u16
}

/// `std::io::IoSlice`, a borrowed run of bytes in the form that vectored
/// output takes. Nothing is known of it but the bytes that it refers to.
#[verifier::external_type_specification]
#[verifier::external_body]
pub struct ExIoSlice<'a>(IoSlice<'a>);

/// The bytes that a slice for vectored output refers to.
pub uninterp spec fn io_slice_bytes(slice: IoSlice<'_>) -> Seq<u8>;

/// The most bytes that one slice for vectored output refers to: what every
/// platform takes.
pub const IO_SLICE_MAX_LEN: usize = 0xffff_ffff;

/// `IoSlice::new`: a slice for vectored output that refers to `bytes`. Some
/// platforms do not take more than `IO_SLICE_MAX_LEN` bytes.
#[verifier::external_body]
fn io_slice_new<'a>(bytes: &'a [u8]) -> (slice: IoSlice<'a>)
    requires
        bytes@.len() <= IO_SLICE_MAX_LEN,
    ensures
        io_slice_bytes(slice) == bytes@,
{
    IoSlice::new(bytes)
}

/// Copies `src` over the bytes of `dst` that start at `at`.
fn copy_into(dst: &mut [u8], at: usize, src: &[u8])
    requires
        at + src@.len() <= old(dst)@.len(),
    ensures
        final(dst)@ == old(dst)@.subrange(0, at as int) + src@ + old(dst)@.subrange(
            at + src@.len(),
            old(dst)@.len() as int,
        ),
{
    let n: usize = src.len();
    let total: usize = dst.len();
    let mut i: usize = 0;
    while i < n
        invariant
            i <= n,
            n == src@.len(),
            at + n <= total,
            dst@.len() == total,
            dst@.len() == old(dst)@.len(),
            forall|j: int| 0 <= j < at ==> dst@[j] == old(dst)@[j],
            forall|j: int| 0 <= j < i ==> dst@[at + j] == src@[j],
            forall|j: int| at + i <= j < dst@.len() ==> dst@[j] == old(dst)@[j],
        decreases n - i,
    {
        dst[at + i] = src[i];
        i = i + 1;
    }
    assert(dst@ =~= old(dst)@.subrange(0, at as int) + src@ + old(dst)@.subrange(
        at + src@.len(),
        old(dst)@.len() as int,
    ));
}

/// A cursor over a sequence of bytes that are read front to back.
///
/// The bytes need not lie in one piece: `chunk` shows the first piece, and
/// `advance` moves past what has been read. Everything else is built on these
/// and on `remaining`.
pub trait Buf: Sized {
    /// The bytes that have not been read yet, in the order in which they
    /// will be read.
    spec fn remaining_bytes(&self) -> Seq<u8>;

    /// The number of bytes that have not been read yet.
    fn remaining(&self) -> (n: usize)
        ensures
            n == self.remaining_bytes().len(),
    ;

    /// The first piece of the unread bytes. It is empty only if no byte is
    /// left.
    fn chunk(&self) -> (c: &[u8])
        ensures
            c@.is_prefix_of(self.remaining_bytes()),
            self.remaining_bytes().len() > 0 ==> c@.len() > 0,
    ;

    /// Moves the cursor past the next `cnt` bytes.
    fn advance(&mut self, cnt: usize)
        requires
            cnt <= old(self).remaining_bytes().len(),
        ensures
            final(self).remaining_bytes() == old(self).remaining_bytes().skip(cnt as int),
    ;

    /// Whether any byte is left to read.
    fn has_remaining(&self) -> (b: bool)
        ensures
            b <==> self.remaining_bytes().len() > 0,
    {
        self.remaining() > 0
    }

    /// Fills the front of `dst` with pieces of the unread bytes, for output
    /// in one call, and returns how many entries it filled: one, with the
    /// first piece or as much of it as one entry takes, unless there is no
    /// entry to fill or no byte to give. The cursor does not move.
    fn chunks_vectored<'a>(&'a self, dst: &mut [IoSlice<'a>]) -> (n: usize)
        ensures
            n == (if old(dst)@.len() == 0 || self.remaining_bytes().len() == 0 {
                0usize
            } else {
                1usize
            }),
            final(dst)@.len() == old(dst)@.len(),
            n == 1 ==> {
                &&& io_slice_bytes(final(dst)@[0]).len() > 0
                &&& io_slice_bytes(final(dst)@[0]).is_prefix_of(self.remaining_bytes())
            },
            forall|i: int| n <= i < old(dst)@.len() ==> final(dst)@[i] == old(dst)@[i],
    {
        if dst.len() == 0 {
            return 0;
        }
        if self.has_remaining() {
            let piece = self.chunk();
            let len: usize = if piece.len() < IO_SLICE_MAX_LEN {
                piece.len()
            } else {
                IO_SLICE_MAX_LEN
            };
            dst[0] = io_slice_new(vstd::slice::slice_subrange(piece, 0, len));
            1
        } else {
            0
        }
    }

    /// Fills `dst` with the next bytes, and moves past them.
    fn copy_to_slice(&mut self, dst: &mut [u8])
        requires
            old(dst)@.len() <= old(self).remaining_bytes().len(),
        ensures
            final(dst)@ == old(self).remaining_bytes().take(old(dst)@.len() as int),
            final(self).remaining_bytes() == old(self).remaining_bytes().skip(
                old(dst)@.len() as int,
            ),
    {
        let total: usize = dst.len();
        let mut done: usize = 0;
        while done < total
            invariant
                done <= total,
                total == dst@.len(),
                total == old(dst)@.len(),
                total <= old(self).remaining_bytes().len(),
                dst@.take(done as int) == old(self).remaining_bytes().take(done as int),
                self.remaining_bytes() == old(self).remaining_bytes().skip(done as int),
            decreases total - done,
        {
            let piece = self.chunk();
            let n: usize = if piece.len() < total - done {
                piece.len()
            } else {
                total - done
            };
            let ghost before = dst@;
            copy_into(dst, done, vstd::slice::slice_subrange(piece, 0, n));
            assert(dst@.take(done + n) =~= old(self).remaining_bytes().take(done + n)) by {
                assert(before.take(done as int) =~= before.subrange(0, done as int));
                assert forall|j: int| 0 <= j < done + n implies dst@[j] == old(
                    self,
                ).remaining_bytes()[j] by {
                    if j < done {
                        assert(before.take(done as int)[j] == old(self).remaining_bytes().take(
                            done as int,
                        )[j]);
                    }
                }
            }
            self.advance(n);
            assert(self.remaining_bytes() =~= old(self).remaining_bytes().skip(done + n));
            done = done + n;
        }
        assert(dst@ =~= dst@.take(done as int));
        assert(self.remaining_bytes() =~= old(self).remaining_bytes().skip(
            old(dst)@.len() as int,
        ));
    }

    /// Reads the next byte.
    fn get_u8(&mut self) -> (b: u8)
        requires
            old(self).remaining_bytes().len() >= 1,
        ensures
            b == old(self).remaining_bytes()[0],
            final(self).remaining_bytes() == old(self).remaining_bytes().skip(1),
    {
        let b: u8 = self.chunk()[0];
        self.advance(1);
        b
    }

    /// Reads the next two bytes as an unsigned integer, most significant byte
    /// first.
    fn get_u16(&mut self) -> (x: u16)
        requires
            old(self).remaining_bytes().len() >= 2,
        ensures
            x == u16_from_be(old(self).remaining_bytes()[0], old(self).remaining_bytes()[1]),
            final(self).remaining_bytes() == old(self).remaining_bytes().skip(2),
    {
        let hi: u8 = self.get_u8();
        let lo: u8 = self.get_u8();
        assert(self.remaining_bytes() =~= old(self).remaining_bytes().skip(2));
        (hi as u16) * 256 + (lo as u16)
    }

    /// Reads the next two bytes as an unsigned integer, least significant
    /// byte first.
    fn get_u16_le(&mut self) -> (x: u16)
        requires
            old(self).remaining_bytes().len() >= 2,
        ensures
            x == u16_from_be(old(self).remaining_bytes()[1], old(self).remaining_bytes()[0]),
            final(self).remaining_bytes() == old(self).remaining_bytes().skip(2),
    {
        let lo: u8 = self.get_u8();
        let hi: u8 = self.get_u8();
        assert(self.remaining_bytes() =~= old(self).remaining_bytes().skip(2));
        (hi as u16) * 256 + (lo as u16)
    }

    /// Takes the next `len` bytes out as a handle of their own, and moves
    /// past them. Unless the cursor can hand out its own storage, the bytes
    /// are copied.
    fn copy_to_bytes(&mut self, len: usize) -> (r: Bytes)
        requires
            len <= old(self).remaining_bytes().len(),
        ensures
            r@ == old(self).remaining_bytes().take(len as int),
            final(self).remaining_bytes() == old(self).remaining_bytes().skip(len as int),
    {
        let mut out: Vec<u8> = Vec::new();
        while out.len() < len
            invariant
                out@.len() <= len <= old(self).remaining_bytes().len(),
                out@ == old(self).remaining_bytes().take(out@.len() as int),
                self.remaining_bytes() == old(self).remaining_bytes().skip(out@.len() as int),
            decreases len - out@.len(),
        {
            let piece = self.chunk();
            let n: usize = if piece.len() < len - out.len() {
                piece.len()
            } else {
                len - out.len()
            };
            let ghost had = out@;
            out.extend_from_slice(vstd::slice::slice_subrange(piece, 0, n));
            assert(out@ =~= old(self).remaining_bytes().take(had.len() + n));
            self.advance(n);
            assert(self.remaining_bytes() =~= old(self).remaining_bytes().skip(had.len() + n));
        }
        Bytes::from_vec(out)
    }

    /// A cursor that reads from this one, but no more than `limit` bytes.
    fn take(self, limit: usize) -> (t: Take<Self>)
        ensures
            *t.get_ref() == self,
            t.limit() == limit,
    {
        take::new(self, limit)
    }

    /// This cursor, wrapped for reading into caller-supplied buffers.
    fn reader(self) -> (r: Reader<Self>)
        ensures
            *r.get_ref() == self,
    {
        reader::new(self)
    }
}

impl<'a> Buf for &'a [u8] {
    open spec fn remaining_bytes(&self) -> Seq<u8> {
        (*self)@
    }

    fn remaining(&self) -> (n: usize) {
        self.len()
    }

    fn chunk(&self) -> (c: &[u8]) {
        *self
    }

    fn advance(&mut self, cnt: usize) {
        *self = vstd::slice::slice_subrange(*self, cnt, self.len());
    }
}

} // verus!
