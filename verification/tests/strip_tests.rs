use std::collections::HashMap;

use locspan::{
    BorrowStripped, Loc, Location, Meta, Span, Strip, StripHasher, Stripped, StrippedHash,
    StrippedOrd, StrippedPartialEq, StrippedPartialOrd,
};

fn loc(file: &str, start: usize, end: usize) -> Location<&str> {
    Location::new(file, Span::new(start, end))
}

#[test]
fn strip_removes_nested_metadata() {
    let v: Vec<Meta<u32, Location<&str>>> = vec![
        Meta(1, loc("a.txt", 0, 1)),
        Meta(2, loc("a.txt", 1, 2)),
        Meta(3, loc("b.txt", 0, 9)),
    ];
    assert_eq!(v.strip(), vec![1u32, 2, 3]);
}

#[test]
fn strip_through_box_and_option() {
    let b: Box<Meta<u64, Span>> = Box::new(Meta(7, Span::new(0, 2)));
    assert_eq!(b.strip(), Box::new(7u64));
    let some: Option<Meta<u64, Span>> = Some(Meta(7, Span::new(0, 2)));
    assert_eq!(some.strip(), Some(7u64));
    let none: Option<Meta<u64, Span>> = None;
    assert_eq!(none.strip(), None);
}

#[test]
fn strip_of_plain_values_is_identity() {
    assert_eq!(5u32.strip(), 5);
    assert_eq!(true.strip(), true);
    assert_eq!('x'.strip(), 'x');
    assert_eq!("s".to_string().strip(), "s".to_string());
    let v: Vec<u32> = vec![1, 2, 3];
    assert_eq!(v.clone().strip(), v);
}

#[test]
fn strip_distributes_over_concatenation() {
    let xs: Vec<Meta<u32, Span>> = vec![Meta(1, Span::new(0, 1)), Meta(2, Span::new(1, 2))];
    let ys: Vec<Meta<u32, Span>> = vec![Meta(3, Span::new(2, 3))];
    let mut zs = xs.clone();
    zs.extend(ys.clone());
    let mut expected = xs.strip();
    expected.extend(ys.strip());
    assert_eq!(zs.strip(), expected);
}

#[test]
fn stripped_eq_ignores_metadata() {
    let a = Loc(5u32, loc("a.txt", 0, 1));
    let b = Loc(5u32, loc("b.txt", 4, 9));
    assert!(a.stripped_eq(&b));
    assert_ne!(a, b);
}

#[test]
fn stripped_wrapper_routes_equality() {
    let a = Loc(5u32, loc("a.txt", 0, 1));
    let b = Loc(5u32, loc("b.txt", 4, 9));
    assert_eq!(a.stripped(), b.stripped());
    let c = Loc(6u32, loc("a.txt", 0, 1));
    assert_ne!(a.stripped(), c.stripped());
    assert_eq!(Stripped(a).unwrap(), a);
}

#[test]
fn stripped_eq_across_metadata_types() {
    let a: Meta<u32, Span> = Meta(5, Span::new(0, 1));
    let b: Meta<u32, u64> = Meta(5, 99);
    assert!(a.stripped_eq(&b));
    let c: Meta<u32, u64> = Meta(6, 99);
    assert!(!a.stripped_eq(&c));
}

#[test]
fn stripped_eq_on_vectors_is_elementwise() {
    let a: Vec<Meta<u32, Span>> = vec![Meta(1, Span::new(0, 1)), Meta(2, Span::new(1, 2))];
    let b: Vec<Meta<u32, Span>> = vec![Meta(1, Span::new(7, 9)), Meta(2, Span::new(3, 4))];
    assert!(a.stripped_eq(&b));
    let shorter: Vec<Meta<u32, Span>> = vec![Meta(1, Span::new(7, 9))];
    assert!(!a.stripped_eq(&shorter));
    let other: Vec<Meta<u32, Span>> = vec![Meta(1, Span::new(0, 1)), Meta(9, Span::new(1, 2))];
    assert!(!a.stripped_eq(&other));
}

#[test]
fn stripped_eq_on_options() {
    let some_a: Option<Meta<u32, Span>> = Some(Meta(1, Span::new(0, 1)));
    let some_b: Option<Meta<u32, Span>> = Some(Meta(1, Span::new(5, 6)));
    let none: Option<Meta<u32, Span>> = None;
    assert!(some_a.stripped_eq(&some_b));
    assert!(none.stripped_eq(&None::<Meta<u32, Span>>));
    assert!(!some_a.stripped_eq(&None::<Meta<u32, Span>>));
    assert!(!none.stripped_eq(&some_a));
}

#[test]
fn stripped_eq_on_maps_requires_same_size() {
    let mut small: HashMap<String, Meta<u32, Location<&str>>> = HashMap::new();
    small.insert("a".to_string(), Meta(1, loc("a.txt", 0, 1)));
    let mut large: HashMap<String, Meta<u32, Location<&str>>> = HashMap::new();
    large.insert("a".to_string(), Meta(1, loc("b.txt", 4, 9)));
    large.insert("b".to_string(), Meta(2, loc("c.txt", 0, 3)));
    assert!(!small.stripped_eq(&large));
    assert!(!large.stripped_eq(&small));
}

#[test]
fn stripped_eq_on_maps_ignores_metadata() {
    let mut left: HashMap<String, Meta<u32, Location<&str>>> = HashMap::new();
    left.insert("a".to_string(), Meta(1, loc("a.txt", 0, 1)));
    let mut right: HashMap<String, Meta<u32, Location<&str>>> = HashMap::new();
    right.insert("a".to_string(), Meta(1, loc("b.txt", 4, 9)));
    assert!(left.stripped_eq(&right));
    assert!(right.stripped_eq(&left));
    right.insert("a".to_string(), Meta(2, loc("b.txt", 4, 9)));
    assert!(!left.stripped_eq(&right));
}

#[test]
fn stripped_cmp_equal_exactly_on_stripped_equal() {
    let a = Loc(5u32, loc("a.txt", 0, 1));
    let b = Loc(5u32, loc("b.txt", 4, 9));
    let c = Loc(6u32, loc("a.txt", 0, 1));
    assert_eq!(a.stripped_cmp(&b), std::cmp::Ordering::Equal);
    assert!(a.stripped_eq(&b));
    assert_ne!(a.stripped_cmp(&c), std::cmp::Ordering::Equal);
    assert!(!a.stripped_eq(&c));
}

#[test]
fn stripped_cmp_on_vectors_is_lexicographic() {
    let a: Vec<Meta<u32, Span>> = vec![Meta(1, Span::new(0, 1)), Meta(2, Span::new(1, 2))];
    let b: Vec<Meta<u32, Span>> = vec![Meta(1, Span::new(8, 9)), Meta(3, Span::new(1, 2))];
    assert_eq!(a.stripped_cmp(&b), std::cmp::Ordering::Less);
    assert_eq!(b.stripped_cmp(&a), std::cmp::Ordering::Greater);
    let prefix: Vec<Meta<u32, Span>> = vec![Meta(1, Span::new(4, 5))];
    assert_eq!(prefix.stripped_cmp(&a), std::cmp::Ordering::Less);
    assert_eq!(a.stripped_cmp(&prefix), std::cmp::Ordering::Greater);
}

#[test]
fn stripped_partial_cmp_orders_none_before_some() {
    let none: Option<Meta<u32, Span>> = None;
    let some: Option<Meta<u32, Span>> = Some(Meta(1, Span::new(0, 1)));
    assert_eq!(none.stripped_partial_cmp(&some), Some(std::cmp::Ordering::Less));
    assert_eq!(some.stripped_partial_cmp(&none), Some(std::cmp::Ordering::Greater));
    assert_eq!(
        none.stripped_partial_cmp(&None::<Meta<u32, Span>>),
        Some(std::cmp::Ordering::Equal)
    );
}

#[test]
fn stripped_wrapper_routes_partial_ordering() {
    let a = Stripped(Loc(1u32, loc("a.txt", 0, 1)));
    let b = Stripped(Loc(2u32, loc("b.txt", 5, 6)));
    assert!(a < b);
    assert!(a <= b);
    assert!(b > a);
}

#[test]
fn stripped_hash_ignores_metadata() {
    let a = Loc(5u32, loc("a.txt", 0, 1));
    let b = Loc(5u32, loc("b.txt", 4, 9));
    let mut ha = StripHasher::new();
    a.stripped_hash(&mut ha);
    let mut hb = StripHasher::new();
    b.stripped_hash(&mut hb);
    assert_eq!(ha.finish(), hb.finish());
}

#[test]
fn stripped_hash_distinguishes_none_from_some() {
    let none: Option<Meta<u32, Span>> = None;
    let some: Option<Meta<u32, Span>> = Some(Meta(0, Span::new(0, 0)));
    let mut hn = StripHasher::new();
    none.stripped_hash(&mut hn);
    let mut hs = StripHasher::new();
    some.stripped_hash(&mut hs);
    assert_ne!(hn.finish(), hs.finish());
}

#[test]
fn stripped_hash_on_vectors_follows_elements() {
    let a: Vec<Meta<u32, Span>> = vec![Meta(1, Span::new(0, 1)), Meta(2, Span::new(1, 2))];
    let b: Vec<Meta<u32, Span>> = vec![Meta(1, Span::new(9, 12)), Meta(2, Span::new(4, 5))];
    let mut ha = StripHasher::new();
    a.stripped_hash(&mut ha);
    let mut hb = StripHasher::new();
    b.stripped_hash(&mut hb);
    assert_eq!(ha.finish(), hb.finish());
    let c: Vec<Meta<u32, Span>> = vec![Meta(2, Span::new(0, 1)), Meta(1, Span::new(1, 2))];
    let mut hc = StripHasher::new();
    c.stripped_hash(&mut hc);
    assert_ne!(ha.finish(), hc.finish());
}

#[test]
fn stripped_eq_reference_wrapping() {
    let a = Loc(5u32, loc("a.txt", 0, 1));
    let b = Loc(5u32, loc("b.txt", 4, 9));
    let ra = &a;
    let rb = &b;
    assert!(ra.stripped_eq(&rb));
}

#[test]
fn stripped_comparisons_on_boxes() {
    let a: Box<Meta<u32, Span>> = Box::new(Meta(1, Span::new(0, 1)));
    let b: Box<Meta<u32, Span>> = Box::new(Meta(1, Span::new(5, 9)));
    assert!(a.stripped_eq(&b));
    assert_eq!(a.stripped_cmp(&b), std::cmp::Ordering::Equal);
    let mut ha = StripHasher::new();
    a.stripped_hash(&mut ha);
    let mut hb = StripHasher::new();
    b.stripped_hash(&mut hb);
    assert_eq!(ha.finish(), hb.finish());
}
