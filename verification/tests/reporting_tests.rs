use codespan_reporting::diagnostic::LabelStyle;
use locspan::{Location, Span};

#[test]
fn primary_label_carries_file_and_range() {
    let l = Location::new(3usize, Span::new(2, 5));
    let label = l.as_primary_label();
    assert_eq!(label.style, LabelStyle::Primary);
    assert_eq!(label.file_id, 3);
    assert_eq!(label.range, 2..5);
    assert!(label.message.is_empty());
}

#[test]
fn secondary_label_carries_file_and_range() {
    let l = Location::new(3usize, Span::new(2, 5));
    let label = l.as_secondary_label();
    assert_eq!(label.style, LabelStyle::Secondary);
    assert_eq!(label.file_id, 3);
    assert_eq!(label.range, 2..5);
}

#[test]
fn into_labels_consume_the_location() {
    let label = Location::new("a.txt", Span::new(0, 4)).into_primary_label();
    assert_eq!(label.style, LabelStyle::Primary);
    assert_eq!(label.file_id, "a.txt");
    assert_eq!(label.range, 0..4);
    let label = Location::new("a.txt", Span::new(0, 4)).into_secondary_label();
    assert_eq!(label.style, LabelStyle::Secondary);
    assert_eq!(label.file_id, "a.txt");
    assert_eq!(label.range, 0..4);
}
