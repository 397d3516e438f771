use serde_spanned::Deserializer;
use serde_spanned::Offset;

/// A stand-in for a format deserializer that knows its cursor position.
struct FixedOffset(usize);

impl Offset for FixedOffset {
    fn spec_offset(&self) -> usize {
        self.0
    }

    fn offset(&self) -> usize {
        self.0
    }
}

#[test]
fn wrapping_keeps_the_inner_deserializer() {
    let w = Deserializer::new(String::from("inner"));
    assert_eq!(w.inner(), "inner");
    assert_eq!(w.into_inner(), "inner");
}

#[test]
fn inner_mut_reaches_the_inner_deserializer() {
    let mut w = Deserializer::new(String::from("in"));
    w.inner_mut().push_str("ner");
    assert_eq!(w.inner(), "inner");
}

#[test]
fn offset_equals_the_inner_offset() {
    let w = Deserializer::new(FixedOffset(42));
    assert_eq!(w.offset(), 42);
    assert_eq!(w.inner().offset(), 42);
}

#[test]
fn stacked_wrappers_report_the_innermost_offset() {
    let w = Deserializer::new(Deserializer::new(Deserializer::new(FixedOffset(7))));
    assert_eq!(w.offset(), 7);
    assert_eq!(Offset::offset(&w), 7);
}
