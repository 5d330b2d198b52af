//! Equality and order of byte sequences, and of the handles that show them.

use crate::bytes::Bytes;
use core::cmp::Ordering;
use vstd::prelude::*;
use vstd::string::StringSliceAdditionalSpecFns;

verus! {

/// How one byte sequence stands to another in lexicographic order.
#[derive(Clone, Copy, Debug, PartialEq, Eq, Structural)]
pub enum Order {
    Less,
    Equal,
    Greater,
}

/// The lexicographic order of byte sequences: the first byte in which two
/// sequences differ decides, and a sequence comes before every longer one
/// that it begins.
pub open spec fn lexicographic(a: Seq<u8>, b: Seq<u8>) -> Order
    decreases a.len(),
{
    if a.len() == 0 && b.len() == 0 {
        Order::Equal
    } else if a.len() == 0 {
        Order::Less
    } else if b.len() == 0 {
        Order::Greater
    } else if a[0] < b[0] {
        Order::Less
    } else if a[0] > b[0] {
        Order::Greater
    } else {
        lexicographic(a.skip(1), b.skip(1))
    }
}

/// Sequences that agree in their first `n` bytes are ordered as what follows
/// those bytes is.
pub proof fn lemma_lexicographic_skips_common_prefix(a: Seq<u8>, b: Seq<u8>, n: int)
    requires
        0 <= n <= a.len(),
        n <= b.len(),
        a.take(n) == b.take(n),
    ensures
        lexicographic(a, b) == lexicographic(a.skip(n), b.skip(n)),
    decreases n,
{
    if n == 0 {
        assert(a.skip(0) =~= a);
        assert(b.skip(0) =~= b);
    } else {
        assert(a[0] == a.take(n)[0]);
        assert(b[0] == b.take(n)[0]);
        assert(a.skip(1).take(n - 1) =~= a.take(n).skip(1));
        assert(b.skip(1).take(n - 1) =~= b.take(n).skip(1));
        lemma_lexicographic_skips_common_prefix(a.skip(1), b.skip(1), n - 1);
        assert(a.skip(1).skip(n - 1) =~= a.skip(n));
        assert(b.skip(1).skip(n - 1) =~= b.skip(n));
    }
}

/// Two sequences are equal in lexicographic order exactly if they are the
/// same sequence.
pub proof fn lemma_lexicographic_equal(a: Seq<u8>, b: Seq<u8>)
    ensures
        lexicographic(a, b) == Order::Equal <==> a == b,
    decreases a.len(),
{
    if a.len() > 0 && b.len() > 0 && a[0] == b[0] {
        lemma_lexicographic_equal(a.skip(1), b.skip(1));
        if a.skip(1) == b.skip(1) {
            assert(a =~= seq![a[0]] + a.skip(1));
            assert(b =~= seq![b[0]] + b.skip(1));
        }
    } else if a.len() == 0 && b.len() == 0 {
        assert(a =~= b);
    }
}

/// Whether two slices hold the same bytes.
pub fn slice_eq(a: &[u8], b: &[u8]) -> (r: bool)
    ensures
        r <==> a@ == b@,
{
    if a.len() != b.len() {
        return false;
    }
    let n: usize = a.len();
    let mut i: usize = 0;
    while i < n
        invariant
            i <= n,
            n == a@.len(),
            n == b@.len(),
            forall|j: int| 0 <= j < i ==> a@[j] == b@[j],
        decreases n - i,
    {
        if a[i] != b[i] {
            return false;
        }
        i = i + 1;
    }
    assert(a@ =~= b@);
    true
}

/// How slice `a` stands to slice `b` in lexicographic order.
pub fn slice_order(a: &[u8], b: &[u8]) -> (r: Order)
    ensures
        r == lexicographic(a@, b@),
{
    let n: usize = if a.len() < b.len() {
        a.len()
    } else {
        b.len()
    };
    let mut i: usize = 0;
    while i < n
        invariant
            i <= n,
            n <= a@.len(),
            n <= b@.len(),
            a@.take(i as int) == b@.take(i as int),
        decreases n - i,
    {
        if a[i] != b[i] {
            proof {
                lemma_lexicographic_skips_common_prefix(a@, b@, i as int);
            }
            return if a[i] < b[i] {
                Order::Less
            } else {
                Order::Greater
            };
        }
        assert(a@.take(i + 1) =~= a@.take(i as int).push(a@[i as int]));
        assert(b@.take(i + 1) =~= b@.take(i as int).push(b@[i as int]));
        i = i + 1;
    }
    proof {
        lemma_lexicographic_skips_common_prefix(a@, b@, n as int);
    }
    if a.len() < b.len() {
        Order::Less
    } else if a.len() > b.len() {
        Order::Greater
    } else {
        Order::Equal
    }
}

/// The standard library's name for an order.
pub open spec fn ordering_of(order: Order) -> Ordering {
    match order {
        Order::Less => Ordering::Less,
        Order::Equal => Ordering::Equal,
        Order::Greater => Ordering::Greater,
    }
}

/// Handles are equal if they show the same bytes, wherever those are stored.
impl PartialEq for Bytes {
    fn eq(&self, other: &Bytes) -> (r: bool) {
        slice_eq(self.as_slice(), other.as_slice())
    }
}

impl vstd::std_specs::cmp::PartialEqSpecImpl for Bytes {
    open spec fn obeys_eq_spec() -> bool {
        true
    }

    open spec fn eq_spec(&self, other: &Bytes) -> bool {
        self@ == other@
    }
}

impl Eq for Bytes {}

/// A handle equals a slice if it shows the bytes of the slice.
impl PartialEq<[u8]> for Bytes {
    fn eq(&self, other: &[u8]) -> (r: bool) {
        slice_eq(self.as_slice(), other)
    }
}

impl vstd::std_specs::cmp::PartialEqSpecImpl<[u8]> for Bytes {
    open spec fn obeys_eq_spec() -> bool {
        true
    }

    open spec fn eq_spec(&self, other: &[u8]) -> bool {
        self@ == other@
    }
}

/// A handle equals a vector if it shows the bytes of the vector.
impl PartialEq<Vec<u8>> for Bytes {
    fn eq(&self, other: &Vec<u8>) -> (r: bool) {
        slice_eq(self.as_slice(), other.as_slice())
    }
}

impl vstd::std_specs::cmp::PartialEqSpecImpl<Vec<u8>> for Bytes {
    open spec fn obeys_eq_spec() -> bool {
        true
    }

    open spec fn eq_spec(&self, other: &Vec<u8>) -> bool {
        self@ == other@
    }
}

/// A handle equals a string if it shows the bytes of the string's encoding.
impl PartialEq<str> for Bytes {
    fn eq(&self, other: &str) -> (r: bool) {
        slice_eq(self.as_slice(), other.as_bytes())
    }
}

impl vstd::std_specs::cmp::PartialEqSpecImpl<str> for Bytes {
    open spec fn obeys_eq_spec() -> bool {
        true
    }

    open spec fn eq_spec(&self, other: &str) -> bool {
        self@ == other.spec_bytes()
    }
}

/// A handle equals a borrowed slice if it shows the bytes of the slice.
impl<'a> PartialEq<&'a [u8]> for Bytes {
    fn eq(&self, other: &&'a [u8]) -> (r: bool) {
        slice_eq(self.as_slice(), *other)
    }
}

impl<'a> vstd::std_specs::cmp::PartialEqSpecImpl<&'a [u8]> for Bytes {
    open spec fn obeys_eq_spec() -> bool {
        true
    }

    open spec fn eq_spec(&self, other: &&'a [u8]) -> bool {
        self@ == (*other)@
    }
}

/// A handle equals a borrowed string if it shows the bytes of the string's
/// encoding.
impl<'a> PartialEq<&'a str> for Bytes {
    fn eq(&self, other: &&'a str) -> (r: bool) {
        slice_eq(self.as_slice(), other.as_bytes())
    }
}

impl<'a> vstd::std_specs::cmp::PartialEqSpecImpl<&'a str> for Bytes {
    open spec fn obeys_eq_spec() -> bool {
        true
    }

    open spec fn eq_spec(&self, other: &&'a str) -> bool {
        self@ == other.spec_bytes()
    }
}

/// A handle equals an owned string if it shows the bytes of the string's
/// encoding.
impl PartialEq<String> for Bytes {
    fn eq(&self, other: &String) -> (r: bool) {
        slice_eq(self.as_slice(), other.as_str().as_bytes())
    }
}

impl vstd::std_specs::cmp::PartialEqSpecImpl<String> for Bytes {
    open spec fn obeys_eq_spec() -> bool {
        true
    }

    open spec fn eq_spec(&self, other: &String) -> bool {
        self@ == vstd::utf8::encode_utf8(other@)
    }
}

/// A slice equals a handle if the handle equals it.
impl PartialEq<Bytes> for [u8] {
    fn eq(&self, other: &Bytes) -> (r: bool) {
        slice_eq(self, other.as_slice())
    }
}

impl vstd::std_specs::cmp::PartialEqSpecImpl<Bytes> for [u8] {
    open spec fn obeys_eq_spec() -> bool {
        true
    }

    open spec fn eq_spec(&self, other: &Bytes) -> bool {
        self@ == other@
    }
}

/// A string equals a handle if the handle equals it.
impl PartialEq<Bytes> for str {
    fn eq(&self, other: &Bytes) -> (r: bool) {
        slice_eq(self.as_bytes(), other.as_slice())
    }
}

impl vstd::std_specs::cmp::PartialEqSpecImpl<Bytes> for str {
    open spec fn obeys_eq_spec() -> bool {
        true
    }

    open spec fn eq_spec(&self, other: &Bytes) -> bool {
        self.spec_bytes() == other@
    }
}

/// A vector equals a handle if the handle equals it.
impl PartialEq<Bytes> for Vec<u8> {
    fn eq(&self, other: &Bytes) -> (r: bool) {
        slice_eq(self.as_slice(), other.as_slice())
    }
}

impl vstd::std_specs::cmp::PartialEqSpecImpl<Bytes> for Vec<u8> {
    open spec fn obeys_eq_spec() -> bool {
        true
    }

    open spec fn eq_spec(&self, other: &Bytes) -> bool {
        self@ == other@
    }
}

/// An owned string equals a handle if the handle equals it.
impl PartialEq<Bytes> for String {
    fn eq(&self, other: &Bytes) -> (r: bool) {
        slice_eq(self.as_str().as_bytes(), other.as_slice())
    }
}

impl vstd::std_specs::cmp::PartialEqSpecImpl<Bytes> for String {
    open spec fn obeys_eq_spec() -> bool {
        true
    }

    open spec fn eq_spec(&self, other: &Bytes) -> bool {
        vstd::utf8::encode_utf8(self@) == other@
    }
}

/// A borrowed slice equals a handle if the handle equals it.
impl<'a> PartialEq<Bytes> for &'a [u8] {
    fn eq(&self, other: &Bytes) -> (r: bool) {
        slice_eq(*self, other.as_slice())
    }
}

impl<'a> vstd::std_specs::cmp::PartialEqSpecImpl<Bytes> for &'a [u8] {
    open spec fn obeys_eq_spec() -> bool {
        true
    }

    open spec fn eq_spec(&self, other: &Bytes) -> bool {
        (*self)@ == other@
    }
}

/// A borrowed string equals a handle if the handle equals it.
impl<'a> PartialEq<Bytes> for &'a str {
    fn eq(&self, other: &Bytes) -> (r: bool) {
        slice_eq(self.as_bytes(), other.as_slice())
    }
}

impl<'a> vstd::std_specs::cmp::PartialEqSpecImpl<Bytes> for &'a str {
    open spec fn obeys_eq_spec() -> bool {
        true
    }

    open spec fn eq_spec(&self, other: &Bytes) -> bool {
        self.spec_bytes() == other@
    }
}

/// The standard library's name for the order of two slices.
fn slice_ordering(a: &[u8], b: &[u8]) -> (r: Option<Ordering>)
    ensures
        r == Some(ordering_of(lexicographic(a@, b@))),
{
    match slice_order(a, b) {
        Order::Less => Some(Ordering::Less),
        Order::Equal => Some(Ordering::Equal),
        Order::Greater => Some(Ordering::Greater),
    }
}

/// Handles are ordered as the bytes that they show are, lexicographically.
impl PartialOrd for Bytes {
    fn partial_cmp(&self, other: &Bytes) -> (r: Option<Ordering>) {
        slice_ordering(self.as_slice(), other.as_slice())
    }
}

impl vstd::std_specs::cmp::PartialOrdSpecImpl for Bytes {
    open spec fn obeys_partial_cmp_spec() -> bool {
        true
    }

    open spec fn partial_cmp_spec(&self, other: &Bytes) -> Option<Ordering> {
        Some(ordering_of(lexicographic(self@, other@)))
    }
}

/// A handle stands to a slice as its bytes stand to the bytes of that.
impl PartialOrd<[u8]> for Bytes {
    fn partial_cmp(&self, other: &[u8]) -> (r: Option<Ordering>) {
        slice_ordering(self.as_slice(), other)
    }
}

impl vstd::std_specs::cmp::PartialOrdSpecImpl<[u8]> for Bytes {
    open spec fn obeys_partial_cmp_spec() -> bool {
        true
    }

    open spec fn partial_cmp_spec(&self, other: &[u8]) -> Option<Ordering> {
        Some(ordering_of(lexicographic(self@, other@)))
    }
}

/// A slice stands to a handle as its bytes stand to the bytes of that.
impl PartialOrd<Bytes> for [u8] {
    fn partial_cmp(&self, other: &Bytes) -> (r: Option<Ordering>) {
        slice_ordering(self, other.as_slice())
    }
}

impl vstd::std_specs::cmp::PartialOrdSpecImpl<Bytes> for [u8] {
    open spec fn obeys_partial_cmp_spec() -> bool {
        true
    }

    open spec fn partial_cmp_spec(&self, other: &Bytes) -> Option<Ordering> {
        Some(ordering_of(lexicographic(self@, other@)))
    }
}

/// A handle stands to a string as its bytes stand to the bytes of that.
impl PartialOrd<str> for Bytes {
    fn partial_cmp(&self, other: &str) -> (r: Option<Ordering>) {
        slice_ordering(self.as_slice(), other.as_bytes())
    }
}

impl vstd::std_specs::cmp::PartialOrdSpecImpl<str> for Bytes {
    open spec fn obeys_partial_cmp_spec() -> bool {
        true
    }

    open spec fn partial_cmp_spec(&self, other: &str) -> Option<Ordering> {
        Some(ordering_of(lexicographic(self@, other.spec_bytes())))
    }
}

/// A string stands to a handle as its bytes stand to the bytes of that.
impl PartialOrd<Bytes> for str {
    fn partial_cmp(&self, other: &Bytes) -> (r: Option<Ordering>) {
        slice_ordering(self.as_bytes(), other.as_slice())
    }
}

impl vstd::std_specs::cmp::PartialOrdSpecImpl<Bytes> for str {
    open spec fn obeys_partial_cmp_spec() -> bool {
        true
    }

    open spec fn partial_cmp_spec(&self, other: &Bytes) -> Option<Ordering> {
        Some(ordering_of(lexicographic(self.spec_bytes(), other@)))
    }
}

/// A handle stands to a vector as its bytes stand to the bytes of that.
impl PartialOrd<Vec<u8>> for Bytes {
    fn partial_cmp(&self, other: &Vec<u8>) -> (r: Option<Ordering>) {
        slice_ordering(self.as_slice(), other.as_slice())
    }
}

impl vstd::std_specs::cmp::PartialOrdSpecImpl<Vec<u8>> for Bytes {
    open spec fn obeys_partial_cmp_spec() -> bool {
        true
    }

    open spec fn partial_cmp_spec(&self, other: &Vec<u8>) -> Option<Ordering> {
        Some(ordering_of(lexicographic(self@, other@)))
    }
}

/// A vector stands to a handle as its bytes stand to the bytes of that.
impl PartialOrd<Bytes> for Vec<u8> {
    fn partial_cmp(&self, other: &Bytes) -> (r: Option<Ordering>) {
        slice_ordering(self.as_slice(), other.as_slice())
    }
}

impl vstd::std_specs::cmp::PartialOrdSpecImpl<Bytes> for Vec<u8> {
    open spec fn obeys_partial_cmp_spec() -> bool {
        true
    }

    open spec fn partial_cmp_spec(&self, other: &Bytes) -> Option<Ordering> {
        Some(ordering_of(lexicographic(self@, other@)))
    }
}

/// A handle stands to an owned string as its bytes stand to the bytes of that.
impl PartialOrd<String> for Bytes {
    fn partial_cmp(&self, other: &String) -> (r: Option<Ordering>) {
        slice_ordering(self.as_slice(), other.as_str().as_bytes())
    }
}

impl vstd::std_specs::cmp::PartialOrdSpecImpl<String> for Bytes {
    open spec fn obeys_partial_cmp_spec() -> bool {
        true
    }

    open spec fn partial_cmp_spec(&self, other: &String) -> Option<Ordering> {
        Some(ordering_of(lexicographic(self@, vstd::utf8::encode_utf8(other@))))
    }
}

/// An owned string stands to a handle as its bytes stand to the bytes of that.
impl PartialOrd<Bytes> for String {
    fn partial_cmp(&self, other: &Bytes) -> (r: Option<Ordering>) {
        slice_ordering(self.as_str().as_bytes(), other.as_slice())
    }
}

impl vstd::std_specs::cmp::PartialOrdSpecImpl<Bytes> for String {
    open spec fn obeys_partial_cmp_spec() -> bool {
        true
    }

    open spec fn partial_cmp_spec(&self, other: &Bytes) -> Option<Ordering> {
        Some(ordering_of(lexicographic(vstd::utf8::encode_utf8(self@), other@)))
    }
}

} // verus!
