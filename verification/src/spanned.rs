//! A value paired with the byte range of the input it was decoded from.

use vstd::prelude::*;

verus! {

/// A decoded payload together with the half-open byte range `[start, end)`
/// of the input text that produced it. The range is supplied by whoever
/// constructs the value; `start <= end` is expected of well-formed producers
/// but not enforced at construction.
#[derive(Debug, Copy, Clone, PartialEq, Eq, Hash)]
pub struct Spanned<T> {
    value: T,
    start: usize,
    end: usize,
}

impl<T> Spanned<T> {
    /// The spanned value built from a payload and the two ends of its range.
    pub closed spec fn spec_new(value: T, start: usize, end: usize) -> Spanned<T> {
        Spanned { value, start, end }
    }

    /// The payload, as contracts see it.
    pub closed spec fn spec_value(self) -> T {
        self.value
    }

    /// The byte offset where the span begins, as contracts see it.
    pub closed spec fn spec_start(self) -> usize {
        self.start
    }

    /// The byte offset where the span ends (exclusive), as contracts see it.
    pub closed spec fn spec_end(self) -> usize {
        self.end
    }

    /// The distance between the two ends of the span.
    pub open spec fn spec_len(self) -> int {
        self.spec_end() - self.spec_start()
    }

    pub fn new(value: T, start: usize, end: usize) -> (r: Spanned<T>)
        ensures
            r == Spanned::spec_new(value, start, end),
            r.spec_value() == value,
            r.spec_start() == start,
            r.spec_end() == end,
    {
        Spanned { value, start, end }
    }

    /// The byte offset where the span begins.
    pub fn start(&self) -> (r: usize)
        ensures
            r == self.spec_start(),
    {
        self.start
    }

    /// The byte offset where the span ends (exclusive).
    pub fn end(&self) -> (r: usize)
        ensures
            r == self.spec_end(),
    {
        self.end
    }

    /// Both ends of the span.
    pub fn span(&self) -> (r: (usize, usize))
        ensures
            r == (self.spec_start(), self.spec_end()),
    {
        (self.start, self.end)
    }

    /// The length of the span in bytes.
    pub fn len(&self) -> (r: usize)
        requires
            self.spec_start() <= self.spec_end(),
        ensures
            r == self.spec_len(),
    {
        self.end - self.start
    }

    /// Whether the span covers no bytes at all.
    pub fn is_empty(&self) -> (r: bool)
        requires
            self.spec_start() <= self.spec_end(),
        ensures
            r == (self.spec_len() == 0),
    {
        self.len() == 0
    }

    /// The payload.
    pub fn value(&self) -> (r: &T)
        ensures
            *r == self.spec_value(),
    {
        &self.value
    }

    /// Mutable access to the payload; the span is left as it was.
    pub fn value_mut(&mut self) -> (r: &mut T)
        ensures
            *r == old(self).spec_value(),
            final(self).spec_value() == *final(r),
            final(self).spec_start() == old(self).spec_start(),
            final(self).spec_end() == old(self).spec_end(),
    {
        &mut self.value
    }

    /// The payload, taken by ownership; the span is discarded.
    pub fn into_value(self) -> (r: T)
        ensures
            r == self.spec_value(),
    {
        self.value
    }
}

/// Law: a spanned value holds exactly the parts it was constructed from.
pub proof fn lemma_construction_identity<T>(value: T, start: usize, end: usize)
    ensures
        Spanned::spec_new(value, start, end).spec_value() == value,
        Spanned::spec_new(value, start, end).spec_start() == start,
        Spanned::spec_new(value, start, end).spec_end() == end,
{
}

/// Law: the length of a span is the distance between its ends, and a span is
/// empty exactly when its two ends coincide.
pub proof fn lemma_len_is_distance<T>(s: Spanned<T>)
    ensures
        s.spec_len() == s.spec_end() - s.spec_start(),
        (s.spec_len() == 0) <==> (s.spec_start() == s.spec_end()),
{
}

} // verus!
