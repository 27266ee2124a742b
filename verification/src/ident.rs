//! Identifiers of users and sessions: 128-bit values and their textual form.

use vstd::prelude::*;

verus! {

/// The hyphenated lower-case text that `uuid` prints for a 128-bit identifier.
pub uninterp spec fn uuid_text(id: u128) -> Seq<char>;

/// The identifier that `uuid` reads from a text, if it reads one.
pub uninterp spec fn uuid_parsed(text: Seq<char>) -> Option<u128>;

/// Trusted: `uuid::Uuid::new_v4`. The identifier is random, so nothing is
/// claimed of its value.
#[verifier::external_body]
pub(crate) fn fresh_uuid() -> (id: u128) {
    uuid::Uuid::new_v4().as_u128()
}

/// Trusted: the `Display` form of `uuid::Uuid` (hyphenated, lower case). The
/// result is the text named `uuid_text`, and, as the crate documents for every
/// format it prints, parsing that text gives the identifier back.
#[verifier::external_body]
pub(crate) fn uuid_to_string(id: u128) -> (text: String)
    ensures
        text@ == uuid_text(id),
        uuid_parsed(text@) == Some(id),
{
    uuid::Uuid::from_u128(id).to_string()
}

/// Trusted: `uuid::Uuid::parse_str`. The result is the identifier named
/// `uuid_parsed`, absent when the crate rejects the text.
#[verifier::external_body]
pub(crate) fn parse_uuid(text: &str) -> (id: Option<u128>)
    ensures
        id == uuid_parsed(text@),
{
    match uuid::Uuid::parse_str(text) {
        Ok(parsed) => Some(parsed.as_u128()),
        Err(_) => None,
    }
}

} // verus!
