use locspan::{MaybeSpanned, Span, Spanned};

#[test]
fn new_keeps_ordered_bounds() {
    let s = Span::new(3, 7);
    assert_eq!(s.start, 3);
    assert_eq!(s.end, 7);
    assert_eq!(s.len(), 4);
    assert!(!s.is_empty());
}

#[test]
fn new_clamps_reversed_bounds() {
    let s = Span::new(7, 3);
    assert_eq!(s.start, 7);
    assert_eq!(s.end, 7);
    assert_eq!(s.len(), 0);
    assert!(s.is_empty());
}

#[test]
fn len_of_ordered_span_is_difference() {
    assert_eq!(Span::new(2, 5).len(), 3);
    assert_eq!(Span::new(10, 10).len(), 0);
    assert_eq!(Span::new(0, 1).len(), 1);
}

#[test]
fn contains_is_half_open() {
    let s = Span::new(2, 5);
    assert!(!s.contains(1));
    assert!(s.contains(2));
    assert!(s.contains(3));
    assert!(s.contains(4));
    assert!(!s.contains(5));
    assert!(!s.contains(6));
}

#[test]
fn contains_on_empty_span_is_false() {
    let s = Span::new(3, 3);
    assert!(!s.contains(2));
    assert!(!s.contains(3));
    assert!(!s.contains(4));
}

#[test]
fn union_of_span_with_itself() {
    let a = Span::new(4, 9);
    assert_eq!(a.union(a), a);
}

#[test]
fn union_is_commutative() {
    let a = Span::new(2, 5);
    let b = Span::new(4, 12);
    assert_eq!(a.union(b), b.union(a));
}

#[test]
fn intersection_is_commutative() {
    let a = Span::new(2, 5);
    let b = Span::new(4, 12);
    assert_eq!(a.inter(b), b.inter(a));
}

#[test]
fn union_of_disjoint_spans_includes_gap() {
    let got = Span::new(2, 5).union(Span::new(10, 12));
    assert_eq!(got, Span { start: 2, end: 12 });
}

#[test]
fn intersection_of_disjoint_spans_is_empty_at_max_start() {
    let got = Span::new(2, 5).inter(Span::new(10, 12));
    assert_eq!(got, Span { start: 10, end: 10 });
    assert!(got.is_empty());
}

#[test]
fn intersection_of_overlapping_spans() {
    let got = Span::new(2, 8).inter(Span::new(5, 12));
    assert_eq!(got, Span { start: 5, end: 8 });
}

#[test]
fn intersection_lies_inside_union() {
    let a = Span::new(2, 8);
    let b = Span::new(5, 12);
    let u = a.union(b);
    let i = a.inter(b);
    assert!(u.start <= i.start);
    assert!(i.end <= u.end);
}

#[test]
fn append_mutates_to_precomputed_union() {
    let mut a = Span::new(2, 5);
    let b = Span::new(10, 12);
    let expected = a.union(b);
    a.append(b);
    assert_eq!(a, expected);
}

#[test]
fn clear_collapses_start_onto_end() {
    let mut s = Span::new(2, 5);
    s.clear();
    assert_eq!(s, Span { start: 5, end: 5 });
}

#[test]
fn next_is_empty_span_at_end() {
    let s = Span::new(2, 5);
    assert_eq!(s.next(), Span { start: 5, end: 5 });
}

#[test]
fn push_moves_end_forward() {
    let mut s = Span::new(2, 5);
    s.push(3);
    assert_eq!(s, Span { start: 2, end: 8 });
}

#[test]
fn range_matches_bounds() {
    let r = Span::new(2, 5).range();
    assert_eq!(r.start, 2);
    assert_eq!(r.end, 5);
}

#[test]
fn span_is_spanned_and_maybe_spanned() {
    let s = Span::new(1, 4);
    assert_eq!(s.span(), s);
    assert_eq!(s.optional_span(), Some(s));
}
