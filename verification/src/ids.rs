//! Session and client identifiers: UUIDs held as their 128-bit value.

use vstd::prelude::*;

verus! {

/// The text of a UUID (`uuid::Uuid` as `Display`: hyphenated lowercase hex).
pub uninterp spec fn uuid_text(id: u128) -> Seq<char>;

/// The UUID `uuid::Uuid::parse_str` reads from a text, or `None` when it
/// rejects it.
pub uninterp spec fn uuid_parse(text: Seq<char>) -> Option<u128>;

/// `Uuid::from_u128(id).to_string()`.
#[verifier::external_body]
pub(crate) fn uuid_to_string(id: u128) -> (s: String)
    ensures
        s@ == uuid_text(id),
{
    uuid::Uuid::from_u128(id).to_string()
}

/// `Uuid::parse_str` as a 128-bit value; the error's text on failure.
#[verifier::external_body]
pub(crate) fn parse_uuid(text: &str) -> (r: Result<u128, String>)
    ensures
        r matches Ok(v) ==> uuid_parse(text@) == Some(v),
        r is Err ==> uuid_parse(text@) is None,
{
    uuid::Uuid::parse_str(text).map(|u| u.as_u128()).map_err(|e| e.to_string())
}

} // verus!
