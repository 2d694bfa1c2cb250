//! Quote identifiers: fresh random UUIDs, parsing and text form.

use vstd::prelude::*;

verus! {

/// The id a UUID text denotes, when it is one: what
/// `uuid::Uuid::parse_str` accepts depends on the characters alone.
pub uninterp spec fn parsed_uuid(s: Seq<char>) -> Option<u128>;

/// The hyphenated text form of an id: what `uuid::Uuid`'s display form
/// yields depends on the id alone.
pub uninterp spec fn uuid_text(id: u128) -> Seq<char>;

/// Relies on `uuid::Uuid::new_v4` for a fresh random identifier. The
/// result is random, so nothing is promised of it.
#[verifier::external_body]
pub(crate) fn new_quote_id() -> u128 {
    uuid::Uuid::new_v4().as_u128()
}

/// Relies on `uuid::Uuid::parse_str`: accepts the UUID text forms and
/// yields the 128-bit value the text denotes.
#[verifier::external_body]
pub(crate) fn parse_quote_id(s: &str) -> (r: Option<u128>)
    ensures
        r == parsed_uuid(s@),
{
    match uuid::Uuid::parse_str(s) {
        Ok(u) => Some(u.as_u128()),
        Err(_) => None,
    }
}

/// Relies on `uuid::Uuid`'s display form: the hyphenated text of the
/// identifier.
#[verifier::external_body]
pub(crate) fn quote_id_text(id: u128) -> (r: String)
    ensures
        r@ == uuid_text(id),
{
    uuid::Uuid::from_u128(id).to_string()
}

} // verus!
