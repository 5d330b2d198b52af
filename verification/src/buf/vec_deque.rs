//! A double-ended queue of bytes, read as a cursor from its front.

use crate::buf::Buf;
use std::collections::VecDeque;
use vstd::prelude::*;

verus! {

/// `VecDeque::as_slices`: the two pieces in which the queue lies in memory,
/// which hold its contents in order, the first piece before the second.
#[verifier::external_body]
fn deque_as_slices(deque: &VecDeque<u8>) -> (pieces: (&[u8], &[u8]))
    ensures
        pieces.0@ + pieces.1@ == deque@,
{
    deque.as_slices()
}

/// `VecDeque::drain` on a range from the front: the first `cnt` bytes leave
/// the queue.
#[verifier::external_body]
fn deque_drain_front(deque: &mut VecDeque<u8>, cnt: usize)
    requires
        cnt <= old(deque)@.len(),
    ensures
        final(deque)@ == old(deque)@.skip(cnt as int),
{
    deque.drain(..cnt);
}

impl Buf for VecDeque<u8> {
    /// The queue is read from front to back.
    open spec fn remaining_bytes(&self) -> Seq<u8> {
        self@
    }

    fn remaining(&self) -> (n: usize) {
        self.len()
    }

    /// The first piece of the queue that is not empty.
    fn chunk(&self) -> (c: &[u8]) {
        let (front, back) = deque_as_slices(self);
        if front.is_empty() {
            assert(front@ + back@ =~= back@);
            back
        } else {
            front
        }
    }

    fn advance(&mut self, cnt: usize) {
        deque_drain_front(self, cnt);
    }
}

} // verus!
