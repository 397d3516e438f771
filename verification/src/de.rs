//! A transparent wrapper that adds offset reporting to a deserializer.

use crate::Offset;
use vstd::prelude::*;

verus! {

/// A wrapper around a deserializer that forwards every decode operation to
/// the wrapped deserializer unchanged, while exposing the wrapped
/// deserializer's current stream offset. Wrappers can be stacked; the offset
/// reported is always that of the innermost deserializer.
#[derive(Debug, Clone, PartialEq)]
pub struct Deserializer<D>(D);

impl<D> Deserializer<D> {
    /// The wrapper around a deserializer, as contracts see it.
    pub closed spec fn spec_new(de: D) -> Deserializer<D> {
        Deserializer(de)
    }

    /// The wrapped deserializer, as contracts see it.
    pub closed spec fn spec_inner(self) -> D {
        self.0
    }

    /// Wraps a deserializer.
    pub fn new(de: D) -> (r: Deserializer<D>)
        ensures
            r == Deserializer::spec_new(de),
            r.spec_inner() == de,
    {
        Deserializer(de)
    }

    /// The wrapped deserializer.
    pub fn inner(&self) -> (r: &D)
        ensures
            *r == self.spec_inner(),
    {
        &self.0
    }

    /// Mutable access to the wrapped deserializer.
    pub fn inner_mut(&mut self) -> (r: &mut D)
        ensures
            *r == old(self).spec_inner(),
            final(self).spec_inner() == *final(r),
    {
        &mut self.0
    }

    /// Unwraps, handing the wrapped deserializer back by ownership.
    pub fn into_inner(self) -> (r: D)
        ensures
            r == self.spec_inner(),
    {
        self.0
    }
}

impl<D: Offset> Deserializer<D> {
    /// The wrapped deserializer's current byte offset.
    pub fn offset(&self) -> (r: usize)
        ensures
            r == self.spec_inner().spec_offset(),
    {
        self.0.offset()
    }
}

impl<D: Offset> Offset for Deserializer<D> {
    open spec fn spec_offset(&self) -> usize {
        self.spec_inner().spec_offset()
    }

    fn offset(&self) -> (r: usize) {
        self.0.offset()
    }
}

/// Law: a wrapper reports exactly the offset of the deserializer it wraps,
/// so stacking wrappers never changes what `offset` returns.
pub proof fn lemma_offset_transparent<D: Offset>(w: Deserializer<D>)
    ensures
        w.spec_offset() == w.spec_inner().spec_offset(),
{
}

/// Law: wrapping a deserializer and unwrapping it again hands back the very
/// deserializer that went in; the wrapper holds it untouched.
pub proof fn lemma_wrap_unwrap_identity<D>(de: D)
    ensures
        Deserializer::spec_new(de).spec_inner() == de,
{
}

} // verus!
