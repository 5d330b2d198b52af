//! The `Bytes` handle and its storage strategies.
//!
//! Contracts speak of a handle through five things: the bytes that it shows
//! (its view), all the bytes of the region or allocation behind it
//! (`storage`), where in that storage its window starts (`offset`), the
//! strategy that it was created with (`backend`), and whether it holds a
//! share of a control block (`is_shared`).
//!
//! There are three kinds of storage. Static storage is never released. An
//! allocation that was handed over to a handle is owned by that handle alone
//! until the handle is first shared; then it is promoted: it moves behind a
//! control block, of which every handle onto the allocation holds a counted
//! share, and it is released with the last of the shares. The promotion goes
//! one way only. The count itself is kept by the standard library's `Rc`, so
//! that the storage is released exactly once, after the last share is gone,
//! by construction.

use crate::buf::Buf;
use crate::buf::IntoIter;
use std::rc::Rc;
use vstd::prelude::*;
use vstd::string::StringSliceAdditionalSpecFns;

verus! {

/// The storage strategy of a handle. It is chosen when the handle is created
/// and stays with it for as long as the handle refers to that storage.
#[derive(Clone, Copy, Debug, PartialEq, Eq, Structural)]
pub enum Backend {
    /// Bytes in static memory: nothing is allocated and nothing is released.
    Static,
    /// An allocation that was handed over by its owner and starts at an even
    /// address. It is owned exclusively until the handle is first shared.
    PromotableEven,
    /// As `PromotableEven`, for an allocation that starts at an odd address.
    PromotableOdd,
    /// A reference-counted allocation behind a control block.
    Shared,
}

impl Backend {
    /// Whether this is one of the two promotable strategies.
    pub open spec fn is_promotable(self) -> bool {
        self == Backend::PromotableEven || self == Backend::PromotableOdd
    }

    /// The promotable strategy for an allocation that starts at `address`,
    /// which goes by the lowest bit of the address.
    pub fn promotable_for(address: usize) -> (backend: Backend)
        ensures
            backend == (if address % 2 == 0 {
                Backend::PromotableEven
            } else {
                Backend::PromotableOdd
            }),
    {
        assert(address & 1 == 0 <==> address % 2 == 0) by (bit_vector);
        if address & 1 == 0 {
            Backend::PromotableEven
        } else {
            Backend::PromotableOdd
        }
    }
}

/// The control block of a shared allocation. It owns the allocation, which
/// carries its own capacity; the count of the shares is kept by the `Rc` that
/// every sharing handle holds.
#[derive(Debug)]
struct Shared {
    buf: Vec<u8>,
}

/// What a handle holds besides its window, read together with its backend.
#[derive(Debug)]
enum State {
    /// The static region that the handle was created from.
    Static(&'static [u8]),
    /// The allocation itself, still owned by this handle alone.
    Raw(Vec<u8>),
    /// A share of a control block.
    Shared(Rc<Shared>),
}

impl State {
    /// The bytes of the whole region or allocation that the state refers to.
    spec fn storage(&self) -> Seq<u8> {
        match self {
            State::Static(s) => s@,
            State::Raw(v) => v@,
            State::Shared(rc) => rc.buf@,
        }
    }
}

/// `Rc::clone` on a control block: the result is one more share of the same
/// block. The count of shares is kept by `Rc`, which ends the process rather
/// than let the count wrap around.
#[verifier::external_body]
fn shallow_clone_rc(shared: &Rc<Shared>) -> (res: Rc<Shared>)
    ensures
        res == *shared,
{
    Rc::clone(shared)
}

/// A cheaply shareable and sliceable window onto contiguous bytes.
///
/// A handle holds four things: where its window starts and where it ends,
/// the state of its storage, and the strategy by which that storage is
/// managed. Handles that share an allocation may show different, possibly
/// overlapping, windows of it.
///
/// Sharing is lazy. A handle made from an owned allocation owns it alone, and
/// no control block exists, until the handle is first shared; that is why
/// `clone` and `slice` take the handle by `&mut`. A handle that is never
/// shared never pays for a control block.
///
/// The handle belongs to a single ownership domain: the shares are counted
/// without atomic operations, and a handle cannot be sent to another thread.
#[derive(Debug)]
pub struct Bytes {
    backend: Backend,
    state: State,
    start: usize,
    end: usize,
}

impl View for Bytes {
    type V = Seq<u8>;

    /// The visible bytes.
    closed spec fn view(&self) -> Seq<u8> {
        self.state.storage().subrange(self.start as int, self.end as int)
    }
}

impl Bytes {
    /// The window lies inside the storage; the state is one that the backend
    /// can be in; and while a promotable allocation is still owned exclusively
    /// the window reaches to its end, so that where the window ends is also
    /// the size of the allocation.
    #[verifier::type_invariant]
    spec fn inv(&self) -> bool {
        &&& self.start <= self.end <= self.state.storage().len()
        &&& self.backend == Backend::Static <==> self.state is Static
        &&& self.backend == Backend::Shared ==> self.state is Shared
        &&& self.state is Raw ==> self.end == self.state.storage().len()
    }

    /// The strategy that manages this handle's storage.
    pub closed spec fn spec_backend(&self) -> Backend {
        self.backend
    }

    /// Whether the handle holds a share of a control block.
    pub closed spec fn spec_is_shared(&self) -> bool {
        self.state is Shared
    }

    /// All bytes of the static region or allocation behind the handle.
    pub closed spec fn storage(&self) -> Seq<u8> {
        self.state.storage()
    }

    /// Where in the storage the window starts.
    pub closed spec fn offset(&self) -> nat {
        self.start as nat
    }

    /// Whether two handles hold shares of one control block.
    pub closed spec fn same_block(&self, other: &Bytes) -> bool {
        self.state is Shared && self.state == other.state
    }

    /// The canonical empty handle: static, with no storage behind it.
    pub open spec fn is_canonical_empty(&self) -> bool {
        &&& self.spec_backend() == Backend::Static
        &&& !self.spec_is_shared()
        &&& self.storage().len() == 0
        &&& self.offset() == 0
        &&& self@.len() == 0
    }

    /// `self` shows the same window of the same storage as `other`.
    pub open spec fn same_window(&self, other: &Bytes) -> bool {
        &&& self.storage() == other.storage()
        &&& self.offset() == other.offset()
        &&& self@ == other@
    }

    /// `self` refers to the storage of `before` once that storage has been
    /// shared: the storage and the backend are those of `before`; unless the
    /// storage is static the handle holds a share of a control block; and if
    /// `before` held a share already, it is a share of that same block.
    pub open spec fn is_after_sharing(&self, before: &Bytes) -> bool {
        &&& self.storage() == before.storage()
        &&& self.spec_backend() == before.spec_backend()
        &&& self.spec_is_shared() <==> before.spec_backend() != Backend::Static
        &&& before.spec_is_shared() ==> self.same_block(before)
    }

    /// `self` is a new share of the storage that `origin` refers to: a second
    /// handle onto the static region, or one more share of the control block
    /// that `origin` holds a share of.
    pub open spec fn is_share_of(&self, origin: &Bytes) -> bool {
        &&& self.storage() == origin.storage()
        &&& if origin.spec_backend() == Backend::Static {
            self.spec_backend() == Backend::Static && !self.spec_is_shared()
        } else {
            self.spec_backend() == Backend::Shared && self.same_block(origin)
        }
    }

    /// `self` differs from `before` at most in its window.
    pub open spec fn is_rewindowed(&self, before: &Bytes) -> bool {
        &&& self.storage() == before.storage()
        &&& self.spec_backend() == before.spec_backend()
        &&& self.spec_is_shared() == before.spec_is_shared()
        &&& before.spec_is_shared() ==> self.same_block(before)
    }

    /// What `clone` does to a handle `before`: it leaves the handle as
    /// `after`, and returns `share`.
    pub open spec fn is_cloning(before: &Bytes, after: &Bytes, share: &Bytes) -> bool {
        &&& after.is_after_sharing(before)
        &&& after.same_window(before)
        &&& before.spec_is_shared() || before.spec_backend() == Backend::Static ==> *after
            == *before
        &&& share.is_share_of(after)
        &&& share.same_window(before)
    }

    /// What `truncate` does to a handle `before` when asked for `len` bytes:
    /// it leaves the handle as `after`.
    ///
    /// A `len` that is not less than the length changes nothing. Otherwise
    /// the window is cut off behind `len` bytes. A handle whose backend is
    /// not promotable is otherwise the same. One whose backend is promotable
    /// has had its storage shared, which is kept as it is, or, for a `len` of
    /// zero, has given its storage up altogether.
    pub open spec fn is_truncating(before: &Bytes, after: &Bytes, len: usize) -> bool {
        if len >= before@.len() {
            *after == *before
        } else if !before.spec_backend().is_promotable() {
            &&& after@ == before@.take(len as int)
            &&& after.offset() == before.offset()
            &&& after.is_rewindowed(before)
        } else if len > 0 {
            &&& after@ == before@.take(len as int)
            &&& after.offset() == before.offset()
            &&& after.is_after_sharing(before)
        } else {
            after.is_canonical_empty()
        }
    }

    /// Shortening a handle that owns an allocation alone does not shorten
    /// what it owns: the allocation goes behind a control block whole, so
    /// that all of it is released in the end, and not just the part that
    /// the window still shows.
    pub proof fn lemma_truncate_keeps_the_allocation(
        allocation: Seq<u8>,
        before: &Bytes,
        after: &Bytes,
        len: usize,
    )
        requires
            before.is_from_allocation(allocation),
            0 < len < allocation.len(),
            Bytes::is_truncating(before, after, len),
        ensures
            after.storage() == allocation,
            after.spec_is_shared(),
            after.spec_backend() == before.spec_backend(),
            after@ == allocation.take(len as int),
    {
    }

    /// Holding shares of one control block is an equivalence between the
    /// handles that hold shares, and such handles have the same storage.
    pub proof fn lemma_same_block(a: &Bytes, b: &Bytes, c: &Bytes)
        ensures
            a.spec_is_shared() ==> a.same_block(a),
            a.same_block(b) ==> b.same_block(a),
            a.same_block(b) && b.same_block(c) ==> a.same_block(c),
            a.same_block(b) ==> a.spec_is_shared() && b.spec_is_shared() && a.storage()
                == b.storage(),
    {
    }

    /// Sharing a handle twice in a row promotes its storage once: the second
    /// call finds the control block that the first one made and leaves the
    /// handle as it is, and both new handles hold shares of that one block.
    pub proof fn lemma_promotion_happens_once(
        before: &Bytes,
        between: &Bytes,
        first: &Bytes,
        after: &Bytes,
        second: &Bytes,
    )
        requires
            before.spec_backend() != Backend::Static,
            Bytes::is_cloning(before, between, first),
            Bytes::is_cloning(between, after, second),
        ensures
            *after == *between,
            first.same_block(second),
            first.same_block(after),
            second.same_block(after),
            first.spec_backend() == Backend::Shared,
            second.spec_backend() == Backend::Shared,
            first@ == before@,
            second@ == before@,
            after@ == before@,
    {
    }

    /// Creates the canonical empty handle. Nothing is allocated.
    pub fn new() -> (r: Bytes)
        ensures
            r.is_canonical_empty(),
    {
        let empty: &'static [u8] = &[];
        Bytes::from_static(empty)
    }

    /// The handle that `from_static` makes for a region.
    pub closed spec fn spec_from_static(bytes: &'static [u8]) -> Bytes {
        Bytes { backend: Backend::Static, state: State::Static(bytes), start: 0, end: bytes.len() }
    }

    /// Creates a handle onto a static region. Nothing is allocated or copied.
    #[verifier::when_used_as_spec(spec_from_static)]
    pub fn from_static(bytes: &'static [u8]) -> (r: Bytes)
        ensures
            r == Bytes::from_static(bytes),
            r@ == bytes@,
            r.storage() == bytes@,
            r.offset() == 0,
            r.spec_backend() == Backend::Static,
            !r.spec_is_shared(),
    {
        let r = Bytes { backend: Backend::Static, state: State::Static(bytes), start: 0, end: bytes.len() };
        assert(r@ =~= bytes@);
        r
    }

    /// The number of visible bytes, which are those of the storage from the
    /// window's offset on.
    pub fn len(&self) -> (n: usize)
        ensures
            n == self@.len(),
            self.offset() + n <= self.storage().len(),
            self@ == self.storage().subrange(self.offset() as int, self.offset() + n),
    {
        proof {
            use_type_invariant(self);
        }
        self.end - self.start
    }

    /// Whether no byte is visible.
    pub fn is_empty(&self) -> (e: bool)
        ensures
            e <==> self@.len() == 0,
    {
        proof {
            use_type_invariant(self);
        }
        self.end == self.start
    }

    /// The strategy that manages this handle's storage.
    #[verifier::when_used_as_spec(spec_backend)]
    pub fn backend(&self) -> (b: Backend)
        ensures
            b == self.spec_backend(),
    {
        self.backend
    }

    /// Whether the handle holds a share of a control block, rather than
    /// static memory or an allocation that it still owns alone.
    ///
    /// A handle with the shared backend always does, and one with the static
    /// backend never. While a handle with a promotable backend does not, its
    /// window reaches to the end of its allocation.
    #[verifier::when_used_as_spec(spec_is_shared)]
    pub fn is_shared(&self) -> (s: bool)
        ensures
            s == self.spec_is_shared(),
            self.spec_backend() == Backend::Shared ==> s,
            self.spec_backend() == Backend::Static ==> !s,
            !s && self.spec_backend() != Backend::Static ==> self.offset() + self@.len()
                == self.storage().len(),
    {
        proof {
            use_type_invariant(self);
        }
        match &self.state {
            State::Shared(_) => true,
            _ => false,
        }
    }

    /// The visible bytes, as they lie in the storage.
    pub fn as_slice(&self) -> (s: &[u8])
        ensures
            s@ == self@,
    {
        proof {
            use_type_invariant(self);
        }
        match &self.state {
            State::Static(region) => vstd::slice::slice_subrange(*region, self.start, self.end),
            State::Raw(buf) => vstd::slice::slice_subrange(buf.as_slice(), self.start, self.end),
            State::Shared(shared) => vstd::slice::slice_subrange(
                shared.buf.as_slice(),
                self.start,
                self.end,
            ),
        }
    }

    /// Moves the start of the window forward by `by` bytes. The end of the
    /// window stays where it is.
    fn inc_start(&mut self, by: usize)
        requires
            by <= old(self)@.len(),
        ensures
            final(self)@ == old(self)@.skip(by as int),
            final(self).offset() == old(self).offset() + by,
            final(self).is_rewindowed(old(self)),
            by == 0 ==> *final(self) == *old(self),
    {
        proof {
            use_type_invariant(&*self);
        }
        self.start = self.start + by;
        assert(self@ =~= old(self)@.skip(by as int));
    }

    /// Shares the storage of this handle: returns a new handle onto the same
    /// window.
    ///
    /// Static storage is shared as it is. An allocation that this handle still
    /// owns alone is first moved behind a newly allocated control block, of
    /// which this handle and the new one then hold the first two shares: from
    /// then on this handle reads as shared. A handle that holds a share
    /// already hands out one more share of the same block and is left as it
    /// was. No byte is copied.
    pub fn clone(&mut self) -> (r: Bytes)
        ensures
            Bytes::is_cloning(old(self), final(self), &r),
    {
        proof {
            use_type_invariant(&*self);
        }
        let mut taken = Bytes::new();
        core::mem::swap(self, &mut taken);
        let Bytes { backend, state, start, end } = taken;
        match state {
            State::Static(region) => {
                *self = Bytes { backend, state: State::Static(region), start, end };
                static_clone(region, start, end)
            },
            State::Raw(buf) => {
                let (ours, theirs) = shallow_clone_vec(buf);
                *self = Bytes { backend, state: State::Shared(ours), start, end };
                Bytes { backend: Backend::Shared, state: State::Shared(theirs), start, end }
            },
            State::Shared(shared) => {
                let theirs = shallow_clone_rc(&shared);
                *self = Bytes { backend, state: State::Shared(shared), start, end };
                Bytes { backend: Backend::Shared, state: State::Shared(theirs), start, end }
            },
        }
    }

    /// A handle onto the bytes `begin..end` of the window. The storage is
    /// shared as by `clone`, and no byte is copied; this handle still shows
    /// what it showed before. An empty range gives the canonical empty handle
    /// and leaves this handle as it was.
    pub fn slice(&mut self, begin: usize, end: usize) -> (r: Bytes)
        requires
            begin <= end <= old(self)@.len(),
        ensures
            r@ == old(self)@.subrange(begin as int, end as int),
            final(self)@ == old(self)@,
            begin == end ==> r.is_canonical_empty() && *final(self) == *old(self),
            begin < end ==> {
                &&& final(self).is_after_sharing(old(self))
                &&& final(self).same_window(old(self))
                &&& r.is_share_of(final(self))
                &&& r.offset() == old(self).offset() + begin
            },
    {
        if end == begin {
            let r = Bytes::new();
            assert(r@ =~= self@.subrange(begin as int, end as int));
            return r;
        }
        let mut ret = self.clone();
        proof {
            use_type_invariant(&ret);
        }
        ret.end = ret.start + end;
        ret.start = ret.start + begin;
        assert(ret@ =~= old(self)@.subrange(begin as int, end as int));
        ret
    }

    /// Splits the window in two at `at`: this handle keeps the bytes before
    /// `at`, and the returned handle shows the bytes from `at` on. No byte is
    /// copied.
    ///
    /// Splitting at the end returns the canonical empty handle and leaves
    /// this handle as it was. Splitting at the start of a window that is not
    /// empty returns this handle as it was and leaves the canonical empty
    /// handle behind. Anywhere else the storage is shared as by `clone`.
    #[must_use]
    pub fn split_off(&mut self, at: usize) -> (r: Bytes)
        requires
            at <= old(self)@.len(),
        ensures
            final(self)@ == old(self)@.take(at as int),
            r@ == old(self)@.skip(at as int),
            final(self)@ + r@ == old(self)@,
            at == old(self)@.len() ==> r.is_canonical_empty() && *final(self) == *old(self),
            at == 0 && old(self)@.len() != 0 ==> r == *old(self) && final(self).is_canonical_empty(),
            0 < at < old(self)@.len() ==> {
                &&& final(self).is_after_sharing(old(self))
                &&& final(self).offset() == old(self).offset()
                &&& r.is_share_of(final(self))
                &&& r.offset() == old(self).offset() + at
            },
    {
        if at == self.len() {
            let r = Bytes::new();
            assert(self@.take(at as int) =~= self@);
            assert(r@ =~= self@.skip(at as int));
            assert(self@ + r@ =~= self@);
            return r;
        }
        if at == 0 {
            let mut whole = Bytes::new();
            core::mem::swap(self, &mut whole);
            assert(self@ =~= whole@.take(0));
            assert(whole@ =~= whole@.skip(0));
            assert(self@ + whole@ =~= whole@);
            return whole;
        }
        let mut ret = self.clone();
        proof {
            use_type_invariant(&*self);
            use_type_invariant(&ret);
        }
        self.end = self.start + at;
        ret.inc_start(at);
        assert(self@ =~= old(self)@.take(at as int));
        assert(self@ + ret@ =~= old(self)@);
        ret
    }

    /// Splits the window in two at `at`: the returned handle shows the bytes
    /// before `at`, and this handle keeps the bytes from `at` on. No byte is
    /// copied.
    ///
    /// Splitting at the end returns this handle as it was and leaves the
    /// canonical empty handle behind. Splitting at the start of a window that
    /// is not empty returns the canonical empty handle and leaves this handle
    /// as it was. Anywhere else the storage is shared as by `clone`.
    #[must_use]
    pub fn split_to(&mut self, at: usize) -> (r: Bytes)
        requires
            at <= old(self)@.len(),
        ensures
            r@ == old(self)@.take(at as int),
            final(self)@ == old(self)@.skip(at as int),
            r@ + final(self)@ == old(self)@,
            at == old(self)@.len() ==> r == *old(self) && final(self).is_canonical_empty(),
            at == 0 && old(self)@.len() != 0 ==> r.is_canonical_empty() && *final(self) == *old(self),
            0 < at < old(self)@.len() ==> {
                &&& final(self).is_after_sharing(old(self))
                &&& final(self).offset() == old(self).offset() + at
                &&& r.is_share_of(final(self))
                &&& r.offset() == old(self).offset()
            },
    {
        if at == self.len() {
            let mut whole = Bytes::new();
            core::mem::swap(self, &mut whole);
            assert(whole@.take(at as int) =~= whole@);
            assert(self@ =~= whole@.skip(at as int));
            assert(whole@ + self@ =~= whole@);
            return whole;
        }
        if at == 0 {
            let r = Bytes::new();
            assert(r@ =~= self@.take(0));
            assert(self@ =~= self@.skip(0));
            assert(r@ + self@ =~= self@);
            return r;
        }
        let mut ret = self.clone();
        proof {
            use_type_invariant(&ret);
        }
        self.inc_start(at);
        ret.end = ret.start + at;
        assert(ret@ =~= old(self)@.take(at as int));
        assert(ret@ + self@ =~= old(self)@);
        ret
    }

    /// Shortens the window to its first `len` bytes. A `len` that is not less
    /// than the current length changes nothing.
    ///
    /// A handle with static or shared backend only moves the end of its
    /// window. A handle with a promotable backend cannot: while it owns its
    /// allocation alone, the end of its window is what tells the size of the
    /// allocation. Such a handle splits at `len` and releases the tail it
    /// split off, so that the storage goes behind a control block, which
    /// keeps the whole allocation whatever the windows show; shortened to
    /// nothing, it gives its storage up and becomes the canonical empty
    /// handle.
    pub fn truncate(&mut self, len: usize)
        ensures
            Bytes::is_truncating(old(self), final(self), len),
    {
        if len < self.len() {
            if self.backend == Backend::PromotableEven || self.backend == Backend::PromotableOdd {
                let _tail = self.split_off(len);
            } else {
                proof {
                    use_type_invariant(&*self);
                }
                self.end = self.start + len;
                assert(self@ =~= old(self)@.take(len as int));
            }
        }
    }

    /// Empties the window: `truncate(0)`.
    pub fn clear(&mut self)
        ensures
            Bytes::is_truncating(old(self), final(self), 0),
            final(self)@.len() == 0,
    {
        self.truncate(0);
    }

    /// Takes over the allocation of `vec`. Nothing is copied, and no control
    /// block is allocated before the handle is first shared. An empty `vec`
    /// gives the canonical empty handle, which retains no allocation.
    ///
    /// Which of the two promotable backends the handle gets is decided by
    /// the address at which the allocation starts.
    pub fn from_vec(vec: Vec<u8>) -> (r: Bytes)
        ensures
            r@ == vec@,
            r.is_from_allocation(vec@),
    {
        if vec.is_empty() {
            let r = Bytes::new();
            assert(r@ =~= vec@);
            return r;
        }
        let end: usize = vec.len();
        let backend = Backend::promotable_for(address_of(vec.as_slice()));
        let r = Bytes { backend, state: State::Raw(vec), start: 0, end };
        assert(r@ =~= vec@);
        r
    }

    /// Creates a handle onto a copy of `data`, made in a new allocation.
    pub fn copy_from_slice(data: &[u8]) -> (r: Bytes)
        ensures
            r@ == data@,
            r.is_from_allocation(data@),
    {
        Bytes::from_vec(vstd::slice::slice_to_vec(data))
    }

    /// A handle onto the part of the window that `subset` occupies in memory,
    /// as `slice` would give it for the offsets at which `subset` lies.
    ///
    /// An empty `subset` lies in every window and gives the canonical empty
    /// handle. Otherwise the result is `None`, and nothing has happened, unless
    /// the addresses that `subset` occupies all belong to the window.
    pub fn slice_ref(&mut self, subset: &[u8]) -> (r: Option<Bytes>)
        ensures
            final(self)@ == old(self)@,
            subset@.len() == 0 ==> r is Some,
            match r {
                Some(b) => if subset@.len() == 0 {
                    b.is_canonical_empty() && *final(self) == *old(self)
                } else {
                    &&& exists|begin: int|
                        {
                            &&& 0 <= begin <= old(self)@.len() - subset@.len()
                            &&& #[trigger] old(self)@.subrange(begin, begin + subset@.len()) == b@
                            &&& b.offset() == old(self).offset() + begin
                        }
                    &&& final(self).is_after_sharing(old(self))
                    &&& final(self).same_window(old(self))
                    &&& b.is_share_of(final(self))
                },
                None => *final(self) == *old(self),
            },
    {
        if subset.is_empty() {
            return Some(Bytes::new());
        }
        let own = address_of(self.as_slice());
        let sub = address_of(subset);
        match subset_range(own, self.len(), sub, subset.len()) {
            Some((begin, end)) => {
                let b = self.slice(begin, end);
                assert(old(self)@.subrange(begin as int, begin + subset@.len()) == b@);
                Some(b)
            },
            None => None,
        }
    }

    /// A handle made from the allocation whose bytes are `bytes`, before it
    /// has been shared or changed: the canonical empty handle if there are no
    /// bytes; otherwise a handle with one of the promotable backends that
    /// owns the allocation alone and shows all of it.
    pub open spec fn is_from_allocation(&self, bytes: Seq<u8>) -> bool {
        if bytes.len() == 0 {
            self.is_canonical_empty()
        } else {
            &&& self.spec_backend().is_promotable()
            &&& !self.spec_is_shared()
            &&& self.storage() == bytes
            &&& self.offset() == 0
            &&& self@ == bytes
        }
    }

    /// Reads the handle byte by byte.
    pub fn into_iter(self) -> (iter: IntoIter<Bytes>)
        ensures
            *iter.get_ref() == self,
    {
        IntoIter::new(self)
    }

    /// Gives the visible bytes as an owned buffer, and gives up this handle's
    /// claim to its storage.
    ///
    /// An allocation that no other handle has a share of is handed over as it
    /// is, with the visible bytes moved to its start. Otherwise the visible
    /// bytes are copied into a new allocation, as they always are from static
    /// storage.
    pub fn into_vec(self) -> (v: Vec<u8>)
        ensures
            v@ == self@,
    {
        proof {
            use_type_invariant(&self);
        }
        let Bytes { backend: _, state, start, end } = self;
        match state {
            State::Static(region) => static_to_vec(region, start, end),
            State::Raw(buf) => promotable_to_vec(buf, start, end),
            State::Shared(shared) => shared_to_vec_impl(shared, start, end),
        }
    }
}

/// A second handle onto a window of a static region.
fn static_clone(region: &'static [u8], start: usize, end: usize) -> (r: Bytes)
    requires
        start <= end <= region@.len(),
    ensures
        r.state == State::Static(region),
        r.backend == Backend::Static,
        r.start == start,
        r.end == end,
{
    Bytes { backend: Backend::Static, state: State::Static(region), start, end }
}

/// Promotes an exclusively owned allocation: moves it behind a newly
/// allocated control block and returns the first two shares of that block,
/// one for the handle that owned the allocation and one for the handle that
/// is being made.
fn shallow_clone_vec(buf: Vec<u8>) -> (shares: (Rc<Shared>, Rc<Shared>))
    ensures
        shares.0.buf == buf,
        shares.1 == shares.0,
{
    let ours = Rc::new(Shared { buf });
    let theirs = shallow_clone_rc(&ours);
    (ours, theirs)
}

/// `String::into_bytes`: the string's own buffer, which holds the bytes of
/// its encoding in UTF-8.
#[verifier::external_body]
fn string_into_bytes(s: String) -> (v: Vec<u8>)
    ensures
        v@ == vstd::utf8::encode_utf8(s@),
{
    s.into_bytes()
}

/// The address at which a slice starts, from `<[u8]>::as_ptr`. Where the
/// bytes lie is for the allocator and the compiler to decide, so nothing is
/// promised of it.
#[verifier::external_body]
fn address_of(bytes: &[u8]) -> usize {
    bytes.as_ptr() as usize
}

/// Where a run of `sub_len` bytes at address `sub_addr` lies in a window of
/// `own_len` bytes at address `own_addr`: the offsets at which it begins and
/// ends, if all its addresses belong to the window, and `None` if not.
pub fn subset_range(own_addr: usize, own_len: usize, sub_addr: usize, sub_len: usize) -> (r:
    Option<(usize, usize)>)
    ensures
        r is Some <==> own_addr <= sub_addr && sub_addr + sub_len <= own_addr + own_len,
        r matches Some((begin, end)) ==> begin == sub_addr - own_addr && end == begin + sub_len,
{
    if sub_addr < own_addr || sub_len > own_len {
        return None;
    }
    let begin: usize = sub_addr - own_addr;
    if begin > own_len - sub_len {
        return None;
    }
    Some((begin, begin + sub_len))
}

/// The bytes `start..end` of a static region, copied into a new allocation.
fn static_to_vec(region: &'static [u8], start: usize, end: usize) -> (v: Vec<u8>)
    requires
        start <= end <= region@.len(),
    ensures
        v@ == region@.subrange(start as int, end as int),
{
    vstd::slice::slice_to_vec(vstd::slice::slice_subrange(region, start, end))
}

/// Moves the bytes `start..end` of `buf` to its start and cuts `buf` off
/// behind them. The allocation stays the same.
fn copy_back(buf: &mut Vec<u8>, start: usize, end: usize)
    requires
        start <= end <= old(buf)@.len(),
    ensures
        final(buf)@ == old(buf)@.subrange(start as int, end as int),
{
    let len: usize = end - start;
    if start > 0 {
        let mut i: usize = 0;
        while i < len
            invariant
                i <= len,
                len == end - start,
                0 < start <= end <= buf@.len(),
                buf@.len() == old(buf)@.len(),
                forall|j: int| 0 <= j < i ==> buf@[j] == old(buf)@[start + j],
                forall|j: int| i <= j < buf@.len() ==> buf@[j] == old(buf)@[j],
            decreases len - i,
        {
            let byte: u8 = buf[start + i];
            buf[i] = byte;
            i = i + 1;
        }
    }
    buf.truncate(len);
    assert(buf@ =~= old(buf)@.subrange(start as int, end as int));
}

/// The owned buffer for a window `start..end` of an allocation that its
/// handle owns alone: the allocation itself.
fn promotable_to_vec(buf: Vec<u8>, start: usize, end: usize) -> (v: Vec<u8>)
    requires
        start <= end <= buf@.len(),
    ensures
        v@ == buf@.subrange(start as int, end as int),
{
    let mut buf = buf;
    copy_back(&mut buf, start, end);
    buf
}

/// The owned buffer for a window `start..end` of a shared allocation. The
/// last share takes the allocation out of its control block; any other share
/// copies the bytes and is released.
fn shared_to_vec_impl(shared: Rc<Shared>, start: usize, end: usize) -> (v: Vec<u8>)
    requires
        start <= end <= shared.buf@.len(),
    ensures
        v@ == shared.buf@.subrange(start as int, end as int),
{
    match Rc::try_unwrap(shared) {
        Ok(block) => {
            let mut buf = block.buf;
            copy_back(&mut buf, start, end);
            buf
        },
        Err(shared) => vstd::slice::slice_to_vec(
            vstd::slice::slice_subrange(shared.buf.as_slice(), start, end),
        ),
    }
}

impl Buf for Bytes {
    /// A handle reads its visible bytes.
    open spec fn remaining_bytes(&self) -> Seq<u8> {
        self@
    }

    fn remaining(&self) -> (n: usize) {
        self.len()
    }

    /// The visible bytes lie in one piece.
    fn chunk(&self) -> (c: &[u8])
        ensures
            c@ == self@,
    {
        self.as_slice()
    }

    /// Drops the first `cnt` bytes from the window. The storage is kept and
    /// shared as before.
    fn advance(&mut self, cnt: usize)
        ensures
            final(self).offset() == old(self).offset() + cnt,
            final(self).is_rewindowed(old(self)),
            cnt == 0 ==> *final(self) == *old(self),
    {
        self.inc_start(cnt);
    }

    /// Takes the first `len` bytes out as a handle of their own, without
    /// copying. Taking all of them moves this handle out whole and leaves the
    /// canonical empty handle behind; taking fewer is `slice` followed by
    /// `advance`.
    fn copy_to_bytes(&mut self, len: usize) -> (r: Bytes)
        ensures
            len == old(self)@.len() ==> r == *old(self) && final(self).is_canonical_empty(),
            len == 0 && old(self)@.len() != 0 ==> {
                &&& r.is_canonical_empty()
                &&& *final(self) == *old(self)
            },
            0 < len < old(self)@.len() ==> {
                &&& final(self).is_after_sharing(old(self))
                &&& final(self).offset() == old(self).offset() + len
                &&& r.is_share_of(final(self))
                &&& r.offset() == old(self).offset()
            },
    {
        if len == self.remaining() {
            let mut whole = Bytes::new();
            core::mem::swap(self, &mut whole);
            assert(whole@.take(len as int) =~= whole@);
            assert(self@ =~= whole@.skip(len as int));
            whole
        } else {
            let ret = self.slice(0, len);
            self.advance(len);
            assert(len == 0 ==> self@ =~= old(self)@);
            ret
        }
    }
}

impl core::ops::Deref for Bytes {
    type Target = [u8];

    /// A handle can be read as the slice of its visible bytes.
    fn deref(&self) -> (s: &[u8])
        ensures
            s@ == self@,
    {
        self.as_slice()
    }
}

impl AsRef<[u8]> for Bytes {
    /// The visible bytes.
    fn as_ref(&self) -> (s: &[u8])
        ensures
            s@ == self@,
    {
        self.as_slice()
    }
}

impl Default for Bytes {
    /// The canonical empty handle.
    fn default() -> (r: Bytes)
        ensures
            r.is_canonical_empty(),
    {
        Bytes::new()
    }
}

impl From<&'static [u8]> for Bytes {
    /// A handle onto the static region, as `Bytes::from_static` makes it.
    fn from(slice: &'static [u8]) -> (r: Bytes)
        ensures
            r == Bytes::from_static(slice),
            r@ == slice@,
            r.storage() == slice@,
            r.offset() == 0,
            r.spec_backend() == Backend::Static,
            !r.spec_is_shared(),
    {
        Bytes::from_static(slice)
    }
}

impl vstd::std_specs::convert::FromSpecImpl<&'static [u8]> for Bytes {
    open spec fn obeys_from_spec() -> bool {
        true
    }

    open spec fn from_spec(slice: &'static [u8]) -> Bytes {
        Bytes::from_static(slice)
    }
}

impl From<&'static str> for Bytes {
    /// A handle onto the encoding of a static string.
    fn from(slice: &'static str) -> (r: Bytes)
        ensures
            r@ == slice.spec_bytes(),
            r.storage() == slice.spec_bytes(),
            r.offset() == 0,
            r.spec_backend() == Backend::Static,
            !r.spec_is_shared(),
    {
        Bytes::from_static(slice.as_bytes())
    }
}

impl vstd::std_specs::convert::FromSpecImpl<&'static str> for Bytes {
    /// The handle is made from the region that holds the string's encoding,
    /// of which the contract of `from` gives the bytes.
    open spec fn obeys_from_spec() -> bool {
        false
    }

    open spec fn from_spec(slice: &'static str) -> Bytes {
        arbitrary()
    }
}

impl From<Box<[u8]>> for Bytes {
    /// Takes over the allocation of `slice`, as `Bytes::from_vec` does.
    fn from(slice: Box<[u8]>) -> (r: Bytes)
        ensures
            r@ == slice@,
            r.is_from_allocation(slice@),
    {
        Bytes::from_vec(slice.into_vec())
    }
}

impl vstd::std_specs::convert::FromSpecImpl<Box<[u8]>> for Bytes {
    /// As for a vector, the backend depends on where the allocation lies:
    /// the contract of `from` says what holds either way.
    open spec fn obeys_from_spec() -> bool {
        false
    }

    open spec fn from_spec(slice: Box<[u8]>) -> Bytes {
        arbitrary()
    }
}

impl From<String> for Bytes {
    /// Takes over the allocation of the string, which holds its encoding.
    fn from(s: String) -> (r: Bytes)
        ensures
            r@ == vstd::utf8::encode_utf8(s@),
            r.is_from_allocation(vstd::utf8::encode_utf8(s@)),
    {
        Bytes::from_vec(string_into_bytes(s))
    }
}

impl vstd::std_specs::convert::FromSpecImpl<String> for Bytes {
    /// As for a vector, the backend depends on where the allocation lies:
    /// the contract of `from` says what holds either way.
    open spec fn obeys_from_spec() -> bool {
        false
    }

    open spec fn from_spec(s: String) -> Bytes {
        arbitrary()
    }
}

impl From<Bytes> for Vec<u8> {
    /// The visible bytes as an owned buffer, as `Bytes::into_vec` gives it.
    fn from(bytes: Bytes) -> (v: Vec<u8>)
        ensures
            v@ == bytes@,
    {
        bytes.into_vec()
    }
}

impl vstd::std_specs::convert::FromSpecImpl<Bytes> for Vec<u8> {
    /// The buffer that comes out is known by its bytes, which the contract
    /// of `from` gives, and not by where it lies.
    open spec fn obeys_from_spec() -> bool {
        false
    }

    open spec fn from_spec(bytes: Bytes) -> Vec<u8> {
        arbitrary()
    }
}

impl From<Vec<u8>> for Bytes {
    /// Takes over the allocation of `vec`, as `Bytes::from_vec` does.
    fn from(vec: Vec<u8>) -> (r: Bytes)
        ensures
            r@ == vec@,
            r.is_from_allocation(vec@),
    {
        Bytes::from_vec(vec)
    }
}

impl vstd::std_specs::convert::FromSpecImpl<Vec<u8>> for Bytes {
    /// The conversion is not a function of the bytes alone: which promotable
    /// backend the handle gets depends on where the allocation lies. The
    /// contract of `from` says what holds either way.
    open spec fn obeys_from_spec() -> bool {
        false
    }

    open spec fn from_spec(vec: Vec<u8>) -> Bytes {
        arbitrary()
    }
}

} // verus!
