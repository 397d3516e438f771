//! The reserved three-key map protocol under which a spanned value is
//! decoded, and the decisions its decoder makes.
//!
//! A spanned value travels as a map-like structure of exactly three entries,
//! in a fixed order: the start offset, the end offset, and the payload. Each
//! entry is keyed by a reserved marker name chosen not to collide with keys
//! in user data. The decoder consumes the entries in one linear pass and
//! rejects a map whose next key is not the expected marker; it never scans
//! ahead for out-of-order or extra keys.

use vstd::prelude::*;
use vstd::string::StringExecFns;

verus! {

/// The reserved name under which a spanned value asks to be decoded as a
/// struct-like shape, as contracts see it.
pub open spec fn spec_spanned_name() -> Seq<char> {
    "$__private_serde_spanned"@
}

/// The reserved name under which a spanned value asks to be decoded as a
/// struct-like shape.
pub fn spanned_name() -> (r: &'static str)
    ensures
        r@ == spec_spanned_name(),
{
    "$__private_serde_spanned"
}

/// The three entries of the reserved map shape, in the order the protocol
/// requires them: start offset, then end offset, then payload.
#[derive(Debug, Clone, Copy, PartialEq, Eq)]
pub enum SpanField {
    Start,
    End,
    Value,
}

/// A shape error: the map did not present the expected reserved key at the
/// expected position. Failures of the entries' own values (the offsets or
/// the payload) are not covered here; they propagate from the underlying
/// format unchanged.
#[derive(Debug, Clone, Copy, PartialEq, Eq)]
pub enum SpanError {
    StartKeyNotFound,
    EndKeyNotFound,
    ValueKeyNotFound,
}

impl SpanField {
    /// The entry's reserved key name, as contracts see it.
    pub open spec fn spec_key(self) -> Seq<char> {
        match self {
            SpanField::Start => "$__private_serde_spanned_start"@,
            SpanField::End => "$__private_serde_spanned_end"@,
            SpanField::Value => "$__private_serde_spanned_value"@,
        }
    }

    /// The entry's reserved key name.
    pub fn key(self) -> (r: &'static str)
        ensures
            r@ == self.spec_key(),
    {
        match self {
            SpanField::Start => "$__private_serde_spanned_start",
            SpanField::End => "$__private_serde_spanned_end",
            SpanField::Value => "$__private_serde_spanned_value",
        }
    }

    /// The error reported when this entry's key is not the next key in the
    /// map, as contracts see it.
    pub open spec fn spec_missing_error(self) -> SpanError {
        match self {
            SpanField::Start => SpanError::StartKeyNotFound,
            SpanField::End => SpanError::EndKeyNotFound,
            SpanField::Value => SpanError::ValueKeyNotFound,
        }
    }

    /// The error reported when this entry's key is not the next key in the
    /// map.
    pub fn missing_error(self) -> (r: SpanError)
        ensures
            r == self.spec_missing_error(),
    {
        match self {
            SpanField::Start => SpanError::StartKeyNotFound,
            SpanField::End => SpanError::EndKeyNotFound,
            SpanField::Value => SpanError::ValueKeyNotFound,
        }
    }
}

impl SpanError {
    /// The error's fixed diagnostic text, as contracts see it.
    pub open spec fn spec_message(self) -> Seq<char> {
        match self {
            SpanError::StartKeyNotFound => "spanned start key not found"@,
            SpanError::EndKeyNotFound => "spanned end key not found"@,
            SpanError::ValueKeyNotFound => "spanned value key not found"@,
        }
    }

    /// The error's fixed diagnostic text.
    pub fn message(self) -> (r: &'static str)
        ensures
            r@ == self.spec_message(),
    {
        match self {
            SpanError::StartKeyNotFound => "spanned start key not found",
            SpanError::EndKeyNotFound => "spanned end key not found",
            SpanError::ValueKeyNotFound => "spanned value key not found",
        }
    }
}

/// Whether a key read from the map is the expected reserved name.
fn key_matches(found: &String, expected: &str) -> (r: bool)
    ensures
        r == (found@ == expected@),
{
    let e: String = String::from_str(expected);
    *found == e
}

/// Decides, for the entry expected next in the map, whether the key actually
/// read is that entry's reserved name. A missing key (the map ended early)
/// or any other key is rejected with the expected entry's shape error: the
/// protocol demands the exact key at the exact position.
pub fn check_key(field: SpanField, found: Option<&String>) -> (r: Result<(), SpanError>)
    ensures
        r is Ok <==> (found matches Some(k) && k@ == field.spec_key()),
        r matches Err(e) ==> e == field.spec_missing_error(),
{
    match found {
        Some(k) => {
            if key_matches(k, field.key()) {
                Ok(())
            } else {
                Err(field.missing_error())
            }
        },
        None => Err(field.missing_error()),
    }
}

} // verus!
