use rcbytes::bytes::subset_range;
use rcbytes::Backend;
use rcbytes::Buf;
use rcbytes::Bytes;

fn promotable(b: &Bytes) -> bool {
    b.backend() == Backend::PromotableEven || b.backend() == Backend::PromotableOdd
}

#[test]
fn bytes_cloning_vec() {
    let mut a = Bytes::from(b"abcdefgh".to_vec());
    let addr = a.as_ptr() as usize;

    {
        let b: Bytes = a.clone();
        assert_eq!(b.as_ptr() as usize, addr);
    }

    {
        let b: Bytes = a.clone();
        assert_eq!(b.as_ptr() as usize, addr);
    }
}

#[test]
fn new_is_the_canonical_empty_handle() {
    let b = Bytes::new();
    assert_eq!(&b[..], b"");
    assert_eq!(b.len(), 0);
    assert!(b.is_empty());
    assert_eq!(b.backend(), Backend::Static);
    assert!(!b.is_shared());
    assert_eq!(Bytes::default(), b);
}

#[test]
fn from_static_points_at_the_region() {
    let region: &'static [u8] = b"hello";
    let b = Bytes::from_static(region);
    assert_eq!(&b[..], b"hello");
    assert_eq!(b.len(), 5);
    assert!(!b.is_empty());
    assert_eq!(b.backend(), Backend::Static);
    assert_eq!(b.as_ptr(), region.as_ptr());
}

#[test]
fn from_vec_takes_the_allocation_over() {
    let vec = b"hello world".to_vec();
    let ptr = vec.as_ptr();
    let b = Bytes::from(vec);
    assert_eq!(b.len(), 11);
    assert!(promotable(&b));
    assert!(!b.is_shared());
    assert_eq!(b.as_ptr(), ptr);
    assert_eq!((ptr as usize) & 1 == 0, b.backend() == Backend::PromotableEven);
}

#[test]
fn from_an_empty_vec_retains_nothing() {
    let b = Bytes::from(Vec::with_capacity(64));
    assert!(b.is_empty());
    assert_eq!(b.backend(), Backend::Static);
    let b = Bytes::from_vec(Vec::new());
    assert_eq!(b.backend(), Backend::Static);
    let b = Bytes::copy_from_slice(b"");
    assert_eq!(b.backend(), Backend::Static);
}

#[test]
fn from_the_other_owners() {
    let b = Bytes::from("Hello world");
    assert_eq!(b, "Hello world");
    assert_eq!(b.backend(), Backend::Static);

    let b = Bytes::from(String::from("gr\u{fc}n"));
    assert_eq!(b, &b"gr\xc3\xbcn"[..]);
    assert!(promotable(&b));

    let b = Bytes::from(b"boxed".to_vec().into_boxed_slice());
    assert_eq!(b, b"boxed".to_vec());
    assert!(promotable(&b));

    let b = Bytes::from(&b"static"[..]);
    assert_eq!(b, b"static"[..]);
    assert_eq!(b.backend(), Backend::Static);
}

#[test]
fn copy_from_slice_copies() {
    let data = *b"abcd";
    let b = Bytes::copy_from_slice(&data);
    assert_eq!(b, &data[..]);
    assert_ne!(b.as_ptr(), data.as_ptr());
    assert!(promotable(&b));
}

#[test]
fn clone_promotes_once() {
    let mut a = Bytes::from(b"abcdefgh".to_vec());
    let kind = a.backend();
    assert!(!a.is_shared());

    let b = a.clone();
    assert!(a.is_shared());
    assert_eq!(a.backend(), kind);
    assert_eq!(b.backend(), Backend::Shared);
    assert!(b.is_shared());

    let c = a.clone();
    assert_eq!(a.backend(), kind);
    assert_eq!(c.backend(), Backend::Shared);
    assert_eq!(a.as_ptr(), b.as_ptr());
    assert_eq!(b.as_ptr(), c.as_ptr());
    assert_eq!(a, b);
    assert_eq!(b, c);
}

#[test]
fn clone_of_static_stays_static() {
    let mut a = Bytes::from_static(b"abc");
    let b = a.clone();
    assert_eq!(a.backend(), Backend::Static);
    assert_eq!(b.backend(), Backend::Static);
    assert!(!a.is_shared());
    assert!(!b.is_shared());
    assert_eq!(a.as_ptr(), b.as_ptr());
    assert_eq!(b, &b"abc"[..]);
}

#[test]
fn clone_of_a_share_is_a_share() {
    let mut a = Bytes::from(b"abc".to_vec());
    let mut b = a.clone();
    let c = b.clone();
    assert_eq!(b.backend(), Backend::Shared);
    assert_eq!(c.backend(), Backend::Shared);
    assert_eq!(c.as_ptr(), a.as_ptr());
    assert_eq!(c, &b"abc"[..]);
}

#[test]
fn shares_outlive_the_first_handle() {
    let mut a = Bytes::from(b"hello world".to_vec());
    let ptr = a.as_ptr();
    let mut shares = Vec::new();
    for _ in 0..8 {
        shares.push(a.clone());
    }
    drop(a);
    for share in &shares {
        assert_eq!(*share, &b"hello world"[..]);
        assert_eq!(share.as_ptr(), ptr);
    }
    let last = shares.pop().unwrap();
    drop(shares);
    // the last share owns the allocation alone and hands it over
    let vec = Vec::from(last);
    assert_eq!(vec.as_ptr(), ptr);
    assert_eq!(vec, b"hello world");
}

#[test]
fn dropping_the_clones_leaves_one_owner() {
    let vec = b"hello world".to_vec();
    let ptr = vec.as_ptr();
    let mut a = Bytes::from(vec);
    for n in 0..5 {
        let mut clones = Vec::new();
        for _ in 0..n {
            clones.push(a.clone());
        }
        drop(clones);
    }
    let vec = a.into_vec();
    assert_eq!(vec.as_ptr(), ptr);
    assert_eq!(vec, b"hello world");
}

#[test]
fn slice_shows_the_range() {
    let mut a = Bytes::from(&b"hello world"[..]);
    let b = a.slice(2, 5);
    assert_eq!(&b[..], b"llo");
    assert_eq!(&a[..], b"hello world");
}

#[test]
fn slice_of_every_range() {
    let data = b"abcdef";
    for begin in 0..=data.len() {
        for end in begin..=data.len() {
            let mut a = Bytes::from(data.to_vec());
            let b = a.slice(begin, end);
            assert_eq!(&b[..], &data[begin..end]);
            assert_eq!(&a[..], &data[..]);
            if begin == end {
                assert_eq!(b.backend(), Backend::Static);
                assert!(!a.is_shared());
            } else {
                assert_eq!(b.backend(), Backend::Shared);
                assert!(a.is_shared());
                assert_eq!(b.as_ptr() as usize, a.as_ptr() as usize + begin);
            }
        }
    }
}

#[test]
fn slice_of_a_slice() {
    let mut a = Bytes::from(b"hello world".to_vec());
    let mut b = a.slice(3, 9);
    let c = b.slice(1, 4);
    assert_eq!(c, &b"o w"[..]);
    assert_eq!(c.as_ptr() as usize, a.as_ptr() as usize + 4);
}

#[test]
fn slice_ref_finds_the_range() {
    let region: &'static [u8] = b"012345678";
    let mut bytes = Bytes::from_static(region);
    let subset = &region[2..6];
    let subslice = bytes.slice_ref(subset).unwrap();
    assert_eq!(&subslice[..], b"2345");
    assert_eq!(subslice.as_ptr(), subset.as_ptr());
}

#[test]
fn slice_ref_through_a_share() {
    let mut bytes = Bytes::from(b"012345678".to_vec());
    let share = bytes.clone();
    let subset = &share[2..6];
    let subslice = bytes.slice_ref(subset).unwrap();
    assert_eq!(&subslice[..], b"2345");
    assert_eq!(subslice.as_ptr(), subset.as_ptr());
    assert_eq!(subslice.backend(), Backend::Shared);
}

#[test]
fn slice_ref_of_an_empty_slice() {
    let mut bytes = Bytes::from(b"abc".to_vec());
    let elsewhere: [u8; 0] = [];
    let empty = bytes.slice_ref(&elsewhere).unwrap();
    assert!(empty.is_empty());
    assert_eq!(empty.backend(), Backend::Static);
    assert!(!bytes.is_shared());
}

#[test]
fn slice_ref_refuses_bytes_from_elsewhere() {
    let mut bytes = Bytes::from(b"012345678".to_vec());
    let elsewhere = b"2345".to_vec();
    assert!(bytes.slice_ref(&elsewhere).is_none());
    assert!(!bytes.is_shared());

    // a range that begins inside the window and runs over its end
    let mut share = bytes.clone();
    let head = share.split_to(4);
    let whole = bytes.clone();
    assert!(share.slice_ref(&whole[2..6]).is_none());
    assert!(share.slice_ref(&head[..]).is_none());
    assert_eq!(share.slice_ref(&whole[4..6]).unwrap(), &b"45"[..]);
}

#[test]
fn subset_range_by_addresses() {
    assert_eq!(subset_range(100, 10, 100, 10), Some((0, 10)));
    assert_eq!(subset_range(100, 10, 102, 4), Some((2, 6)));
    assert_eq!(subset_range(100, 10, 110, 0), Some((10, 10)));
    assert_eq!(subset_range(100, 10, 109, 1), Some((9, 10)));
    assert_eq!(subset_range(100, 10, 109, 2), None);
    assert_eq!(subset_range(100, 10, 99, 3), None);
    assert_eq!(subset_range(100, 10, 111, 0), None);
    assert_eq!(subset_range(100, 10, 100, 11), None);
    assert_eq!(subset_range(usize::MAX - 4, 4, usize::MAX - 2, 2), Some((2, 4)));
    assert_eq!(subset_range(0, 4, usize::MAX, usize::MAX), None);
}

#[test]
fn split_off_keeps_the_head() {
    let mut a = Bytes::from(&b"hello world"[..]);
    let b = a.split_off(5);
    assert_eq!(&a[..], b"hello");
    assert_eq!(&b[..], b" world");
}

#[test]
fn split_to_keeps_the_tail() {
    let mut a = Bytes::from(&b"hello world"[..]);
    let b = a.split_to(5);
    assert_eq!(&a[..], b" world");
    assert_eq!(&b[..], b"hello");
}

#[test]
fn split_off_everywhere_gives_the_whole_back() {
    let data = b"hello world";
    for at in 0..=data.len() {
        let mut a = Bytes::from(data.to_vec());
        let b = a.split_off(at);
        assert_eq!(&a[..], &data[..at]);
        assert_eq!(&b[..], &data[at..]);
        let mut joined = a.to_vec();
        joined.extend_from_slice(&b);
        assert_eq!(&joined[..], &data[..]);
    }
}

#[test]
fn split_to_everywhere_gives_the_whole_back() {
    let data = b"hello world";
    for at in 0..=data.len() {
        let mut a = Bytes::from(data.to_vec());
        let b = a.split_to(at);
        assert_eq!(&b[..], &data[..at]);
        assert_eq!(&a[..], &data[at..]);
        let mut joined = b.to_vec();
        joined.extend_from_slice(&a);
        assert_eq!(&joined[..], &data[..]);
    }
}

#[test]
fn split_off_at_the_ends() {
    let vec = b"hello".to_vec();
    let ptr = vec.as_ptr();
    let mut a = Bytes::from(vec);
    let kind = a.backend();

    let tail = a.split_off(5);
    assert!(tail.is_empty());
    assert_eq!(tail.backend(), Backend::Static);
    assert_eq!(a.backend(), kind);
    assert!(!a.is_shared());

    let all = a.split_off(0);
    assert_eq!(all, &b"hello"[..]);
    assert_eq!(all.backend(), kind);
    assert!(!all.is_shared());
    assert_eq!(all.as_ptr(), ptr);
    assert!(a.is_empty());
    assert_eq!(a.backend(), Backend::Static);
}

#[test]
fn split_to_at_the_ends() {
    let vec = b"hello".to_vec();
    let ptr = vec.as_ptr();
    let mut a = Bytes::from(vec);
    let kind = a.backend();

    let head = a.split_to(0);
    assert!(head.is_empty());
    assert_eq!(head.backend(), Backend::Static);
    assert_eq!(a.backend(), kind);
    assert!(!a.is_shared());

    let all = a.split_to(5);
    assert_eq!(all, &b"hello"[..]);
    assert_eq!(all.backend(), kind);
    assert!(!all.is_shared());
    assert_eq!(all.as_ptr(), ptr);
    assert!(a.is_empty());
    assert_eq!(a.backend(), Backend::Static);
}

#[test]
fn split_of_an_empty_handle() {
    let mut a = Bytes::new();
    let b = a.split_off(0);
    assert!(a.is_empty());
    assert!(b.is_empty());
    let c = a.split_to(0);
    assert!(c.is_empty());
}

#[test]
fn split_in_the_middle_shares() {
    let mut a = Bytes::from(b"hello world".to_vec());
    let kind = a.backend();
    let ptr = a.as_ptr() as usize;
    let b = a.split_off(5);
    assert!(a.is_shared());
    assert_eq!(a.backend(), kind);
    assert_eq!(b.backend(), Backend::Shared);
    assert_eq!(a.as_ptr() as usize, ptr);
    assert_eq!(b.as_ptr() as usize, ptr + 5);
}

#[test]
fn truncate_shortens() {
    let mut buf = Bytes::from(&b"hello world"[..]);
    buf.truncate(5);
    assert_eq!(buf, b"hello"[..]);
    buf.truncate(5);
    assert_eq!(buf, b"hello"[..]);
    buf.truncate(100);
    assert_eq!(buf, b"hello"[..]);
}

#[test]
fn truncate_promotes_an_owned_allocation() {
    let mut buf = Bytes::from(b"hello world".to_vec());
    let kind = buf.backend();
    buf.truncate(11);
    assert!(!buf.is_shared());
    buf.truncate(5);
    assert_eq!(buf, &b"hello"[..]);
    assert!(buf.is_shared());
    assert_eq!(buf.backend(), kind);
    buf.truncate(0);
    assert!(buf.is_empty());
    assert_eq!(buf.backend(), Backend::Static);
}

#[test]
fn truncate_moves_the_end_of_a_share() {
    let mut a = Bytes::from(b"hello world".to_vec());
    let mut b = a.clone();
    b.truncate(5);
    assert_eq!(b, &b"hello"[..]);
    assert_eq!(b.backend(), Backend::Shared);
    b.truncate(0);
    assert!(b.is_empty());
    assert_eq!(b.backend(), Backend::Shared);
    assert_eq!(a, &b"hello world"[..]);

    let mut s = Bytes::from_static(b"hello world");
    s.truncate(0);
    assert!(s.is_empty());
    assert_eq!(s.backend(), Backend::Static);
}

#[test]
fn truncate_keeps_the_whole_allocation() {
    let vec = b"hello world".to_vec();
    let ptr = vec.as_ptr();
    let cap = vec.capacity();
    let mut buf = Bytes::from(vec);
    buf.truncate(5);
    let vec = Vec::from(buf);
    assert_eq!(vec, b"hello");
    assert_eq!(vec.as_ptr(), ptr);
    assert_eq!(vec.capacity(), cap);
}

#[test]
fn clear_empties() {
    let mut buf = Bytes::from(&b"hello world"[..]);
    buf.clear();
    assert!(buf.is_empty());

    let mut buf = Bytes::from(b"hello world".to_vec());
    buf.clear();
    assert!(buf.is_empty());
    assert_eq!(buf.backend(), Backend::Static);

    let mut buf = Bytes::new();
    buf.clear();
    assert!(buf.is_empty());
}

#[test]
fn hello_world() {
    let vec = b"hello world".to_vec();
    let ptr = vec.as_ptr();
    let mut mem = Bytes::from(vec);
    assert_eq!(mem.len(), 11);

    let a = mem.slice(0, 5);
    assert_eq!(a, "hello");
    assert_eq!(a.len(), 5);
    assert_eq!(mem, "hello world");
    assert_eq!(mem.len(), 11);

    // a second handle exists: the bytes are copied
    let copy = Vec::from(a);
    assert_eq!(copy, b"hello");
    assert_ne!(copy.as_ptr(), ptr);

    let mut whole = mem.clone();
    let b = mem.split_to(6);
    assert_eq!(b, "hello ");
    assert_eq!(b.len(), 6);
    assert_eq!(mem, "world");
    assert_eq!(mem.len(), 5);

    let copy = Vec::from(whole.clone());
    assert_eq!(copy, b"hello world");
    assert_ne!(copy.as_ptr(), ptr);

    // the only handle that is left takes the allocation with it
    drop(b);
    drop(mem);
    let vec = Vec::from(whole);
    assert_eq!(vec, b"hello world");
    assert_eq!(vec.as_ptr(), ptr);
}

#[test]
fn into_vec_of_a_sole_owner_reuses_the_allocation() {
    let vec = b"hello world".to_vec();
    let ptr = vec.as_ptr();
    let vec = Vec::from(Bytes::from(vec));
    assert_eq!(vec.as_ptr(), ptr);
    assert_eq!(vec, b"hello world");

    // promoted, and alone again
    let mut b = Bytes::from(vec);
    drop(b.clone());
    assert!(b.is_shared());
    let vec = Vec::from(b);
    assert_eq!(vec.as_ptr(), ptr);
    assert_eq!(vec, b"hello world");
}

#[test]
fn into_vec_moves_the_window_to_the_front() {
    let vec = b"hello world".to_vec();
    let ptr = vec.as_ptr();
    let mut b = Bytes::from(vec);
    b.advance(6);
    assert!(!b.is_shared());
    let vec = b.into_vec();
    assert_eq!(vec, b"world");
    assert_eq!(vec.as_ptr(), ptr);

    let mut b = Bytes::from(vec);
    let head = b.split_to(2);
    drop(head);
    b.truncate(2);
    let vec = b.into_vec();
    assert_eq!(vec, b"rl");
    assert_eq!(vec.as_ptr(), ptr);
}

#[test]
fn into_vec_of_a_share_copies() {
    let mut a = Bytes::from(b"hello world".to_vec());
    let b = a.slice(6, 11);
    let vec = Vec::from(b);
    assert_eq!(vec, b"world");
    assert_eq!(a, &b"hello world"[..]);
}

#[test]
fn into_vec_of_static_copies() {
    let region: &'static [u8] = b"hello";
    let vec = Bytes::from_static(region).into_vec();
    assert_eq!(vec, b"hello");
    assert_ne!(vec.as_ptr(), region.as_ptr());
}

#[test]
fn into_vec_of_an_empty_handle_allocates_nothing() {
    assert_eq!(Vec::from(Bytes::new()).capacity(), 0);
    assert_eq!(Bytes::from_static(b"").into_vec().capacity(), 0);
    assert_eq!(Bytes::from(Vec::new()).into_vec().capacity(), 0);

    let mut a = Bytes::from_static(b"abc");
    a.clear();
    assert_eq!(a.into_vec().capacity(), 0);

    let mut a = Bytes::from(b"abc".to_vec());
    let mut b = a.clone();
    b.clear();
    assert_eq!(b.into_vec().capacity(), 0);
}

#[test]
fn advance_drops_from_the_front() {
    let mut b = Bytes::from(b"hello world".to_vec());
    let ptr = b.as_ptr() as usize;
    assert_eq!(b.remaining(), 11);
    assert_eq!(b.chunk(), b"hello world");
    b.advance(6);
    assert_eq!(b.remaining(), 5);
    assert_eq!(b.chunk(), b"world");
    assert_eq!(b.as_ptr() as usize, ptr + 6);
    assert!(!b.is_shared());
    b.advance(5);
    assert_eq!(b.remaining(), 0);
    b.advance(0);
    assert!(b.is_empty());
}

#[test]
fn copy_to_bytes_does_not_copy() {
    let mut b = Bytes::from(b"hello world".to_vec());
    let kind = b.backend();
    let ptr = b.as_ptr() as usize;

    let none = b.copy_to_bytes(0);
    assert!(none.is_empty());
    assert!(!b.is_shared());

    let head = b.copy_to_bytes(6);
    assert_eq!(head, &b"hello "[..]);
    assert_eq!(head.as_ptr() as usize, ptr);
    assert_eq!(head.backend(), Backend::Shared);
    assert_eq!(b, &b"world"[..]);
    assert_eq!(b.as_ptr() as usize, ptr + 6);

    let rest = b.copy_to_bytes(5);
    assert_eq!(rest, &b"world"[..]);
    assert_eq!(rest.backend(), kind);
    assert!(b.is_empty());
    assert_eq!(b.backend(), Backend::Static);
}

#[test]
fn equality_goes_by_the_bytes() {
    let mut a = Bytes::from(b"abc".to_vec());
    let b = Bytes::from_static(b"abc");
    let c = a.clone();
    assert_eq!(a, b);
    assert_eq!(a, c);
    assert_ne!(a, Bytes::from_static(b"abd"));
    assert_ne!(a, Bytes::from_static(b"ab"));
    assert_ne!(a, Bytes::new());
    assert_eq!(a, b"abc"[..]);
    assert_eq!(a, &b"abc"[..]);
    assert_eq!(a, "abc");
    assert_eq!(a, *"abc");
    assert_eq!(a, b"abc".to_vec());
    assert_ne!(a, "abC");
    assert_ne!(a, b"abcd".to_vec());
}

#[test]
fn order_is_lexicographic() {
    let b = |s: &'static [u8]| Bytes::from_static(s);
    assert!(b(b"") < b(b"a"));
    assert!(b(b"a") < b(b"ab"));
    assert!(b(b"ab") < b(b"b"));
    assert!(b(b"a\xff") < b(b"b"));
    assert!(b(b"b") > b(b"a\xff\xff"));
    assert!(b(b"abc") <= b(b"abc"));
    assert!(b(b"abc") >= b(b"abc"));
    assert!(!(b(b"abc") < b(b"abc")));
    assert!(b(b"\x00") > b(b""));
    assert!(b(b"\x7f") < b(b"\x80"));
}

#[test]
fn equality_from_the_other_side() {
    let a = Bytes::from(b"abc".to_vec());
    assert_eq!(b"abc"[..], a);
    assert_eq!(&b"abc"[..], a);
    assert_eq!(*"abc", a);
    assert_eq!("abc", a);
    assert_eq!(b"abc".to_vec(), a);
    assert_eq!(String::from("abc"), a);
    assert_eq!(a, String::from("abc"));
    assert_ne!(b"abd"[..], a);
    assert_ne!("ab", a);
    assert_ne!(Vec::new(), a);
    assert_ne!(String::from("abcd"), a);
}

#[test]
fn order_against_other_owners() {
    let a = Bytes::from(b"abc".to_vec());
    assert!(a < b"abd"[..]);
    assert!(a > b"abb\xff"[..]);
    assert!(b"abd"[..] > a);
    assert!(a < *"b");
    assert!(*"ab" < a);
    assert!(a <= b"abc".to_vec());
    assert!(b"abc".to_vec() >= a);
    assert!(a < String::from("abcd"));
    assert!(String::from("") < a);
    assert_eq!(a.partial_cmp(&b"abc"[..]), Some(std::cmp::Ordering::Equal));
    assert_eq!(a.partial_cmp(&Bytes::new()), Some(std::cmp::Ordering::Greater));
    assert_eq!(Bytes::new().partial_cmp(&a), Some(std::cmp::Ordering::Less));
}

#[test]
fn as_ref_and_deref_show_the_window() {
    let mut a = Bytes::from(b"hello world".to_vec());
    a.advance(6);
    let r: &[u8] = a.as_ref();
    assert_eq!(r, b"world");
    assert_eq!(&a[1..3], b"or");
    assert_eq!(a.as_slice(), b"world");
    assert_eq!(a.iter().copied().max(), Some(b'w'));
}

#[test]
fn promotable_backend_goes_by_the_lowest_bit() {
    assert_eq!(Backend::promotable_for(0), Backend::PromotableEven);
    assert_eq!(Backend::promotable_for(1), Backend::PromotableOdd);
    assert_eq!(Backend::promotable_for(0x1000), Backend::PromotableEven);
    assert_eq!(Backend::promotable_for(0x1001), Backend::PromotableOdd);
    assert_eq!(Backend::promotable_for(usize::MAX), Backend::PromotableOdd);
    assert_eq!(Backend::promotable_for(usize::MAX - 1), Backend::PromotableEven);
}
