//! Span-aware decoding support: a value holder that pairs a decoded payload
//! with the half-open byte range `[start, end)` of the input that produced
//! it, a transparent wrapper that forwards every decode operation to an inner
//! deserializer while exposing its current stream offset, and the strict
//! three-key map protocol under which a spanned value travels.

use vstd::prelude::*;

mod de;
mod protocol;
mod spanned;

pub use de::Deserializer;
pub use protocol::SpanError;
pub use protocol::SpanField;
pub use protocol::check_key;
pub use protocol::spanned_name;
pub use spanned::Spanned;

verus! {

/// The capability a deserializer implements to report its current byte
/// position in the input stream. Span-aware decoding asks the deserializer
/// for this offset immediately before and after decoding a payload.
pub trait Offset {
    /// The current byte offset, as contracts see it.
    spec fn spec_offset(&self) -> usize;

    /// The offset into the current stream.
    fn offset(&self) -> (r: usize)
        ensures
            r == self.spec_offset(),
    ;
}

} // verus!
