//! Universally unique identifiers, held by their 128-bit value.

use vstd::prelude::*;

verus! {

/// The 128-bit value of the UUID that `uuid::Uuid::parse_str` reads from a
/// text; `None` where it rejects the text.
pub uninterp spec fn parsed_uuid(text: Seq<char>) -> Option<u128>;

/// A UUID. Two are the same exactly when their values are.
#[derive(Debug, Clone, Copy, PartialEq, Eq, Hash, Structural)]
pub struct Uuid {
    pub value: u128,
}

/// Parses a text with `uuid::Uuid::parse_str` and takes the value of the
/// UUID read with `uuid::Uuid::as_u128`.
///
/// Trusted: the call accepts exactly the texts that spell a UUID, and the
/// result is the big-endian value of the UUID's sixteen bytes.
#[verifier::external_body]
fn parse_uuid(text: &str) -> (value: Option<u128>)
    ensures
        value == parsed_uuid(text@),
{
    ::uuid::Uuid::parse_str(text).ok().map(|id| id.as_u128())
}

impl Uuid {
    /// The UUID that a text spells, if it spells one.
    pub open spec fn parsed(text: Seq<char>) -> Option<Uuid> {
        match parsed_uuid(text) {
            Some(value) => Some(Uuid { value }),
            None => None,
        }
    }

    /// The UUID with the given value.
    pub fn from_u128(value: u128) -> (id: Uuid)
        ensures
            id.value == value,
    {
        Uuid { value }
    }

    /// The value of the UUID.
    pub fn as_u128(&self) -> (value: u128)
        ensures
            value == self.value,
    {
        self.value
    }

    /// Reads a UUID from its text form.
    pub fn parse_str(text: &str) -> (id: Option<Uuid>)
        ensures
            id == Uuid::parsed(text@),
    {
        match parse_uuid(text) {
            Some(value) => Some(Uuid { value }),
            None => None,
        }
    }
}

} // verus!
