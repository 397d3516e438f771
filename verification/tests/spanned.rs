use serde_spanned::Spanned;

#[test]
fn construction_identity() {
    let s = Spanned::new(String::from("payload"), 3, 9);
    assert_eq!(s.value(), "payload");
    assert_eq!(s.start(), 3);
    assert_eq!(s.end(), 9);
}

#[test]
fn span_is_both_ends() {
    let s = Spanned::new(true, 120, 135);
    assert_eq!(s.span(), (120, 135));
}

#[test]
fn len_is_distance_between_ends() {
    let s = Spanned::new('x', 5, 10);
    assert_eq!(s.len(), 5);
    assert!(!s.is_empty());
}

#[test]
fn empty_exactly_when_ends_coincide() {
    let empty = Spanned::new(0u8, 7, 7);
    assert_eq!(empty.len(), 0);
    assert!(empty.is_empty());

    let tight = Spanned::new(0u8, 7, 8);
    assert_eq!(tight.len(), 1);
    assert!(!tight.is_empty());
}

#[test]
fn zero_span_at_stream_start() {
    let s = Spanned::new((), 0, 0);
    assert_eq!(s.span(), (0, 0));
    assert_eq!(s.len(), 0);
    assert!(s.is_empty());
}

#[test]
fn value_mut_changes_only_the_payload() {
    let mut s = Spanned::new(String::from("old"), 2, 11);
    *s.value_mut() = String::from("new");
    assert_eq!(s.value(), "new");
    assert_eq!(s.start(), 2);
    assert_eq!(s.end(), 11);
}

#[test]
fn into_value_hands_the_payload_back() {
    let s = Spanned::new(vec![1u32, 2, 3], 0, 4);
    assert_eq!(s.into_value(), vec![1u32, 2, 3]);
}

#[test]
fn equal_parts_compare_equal() {
    let a = Spanned::new(42u64, 1, 2);
    let b = Spanned::new(42u64, 1, 2);
    let c = Spanned::new(42u64, 1, 3);
    assert_eq!(a, b);
    assert_ne!(a, c);
}
