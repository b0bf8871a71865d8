//! Identifiers. An id is the 128-bit value of a UUID; its text form is the
//! hyphenated lower-case one.

use vstd::prelude::*;

verus! {

/// The text that `Uuid`'s `Display` gives for the UUID with this value.
pub uninterp spec fn uuid_text(id: u128) -> Seq<char>;

/// The value of the UUID that `Uuid::parse_str` reads from a text, if it
/// accepts the text.
pub uninterp spec fn uuid_parsed(text: Seq<char>) -> Option<u128>;

/// `Uuid::new_v4`: a random version-4 UUID, as its 128-bit value. Nothing is
/// claimed of the value.
#[verifier::external_body]
pub(crate) fn fresh_id() -> u128 {
    uuid::Uuid::new_v4().as_u128()
}

/// `Uuid`'s `to_string`: the hyphenated form of the UUID with this value.
/// The contract names the text and claims that `Uuid::parse_str` reads the
/// same value back from it, as the crate documents for every format it
/// writes.
#[verifier::external_body]
pub(crate) fn id_text(id: u128) -> (text: String)
    ensures
        text@ == uuid_text(id),
        uuid_parsed(text@) == Some(id),
{
    uuid::Uuid::from_u128(id).to_string()
}

/// `Uuid::parse_str`: the value of the UUID a text denotes, `None` where
/// the text is no UUID.
#[verifier::external_body]
pub(crate) fn parse_id(text: &str) -> (id: Option<u128>)
    ensures
        id == uuid_parsed(text@),
{
    uuid::Uuid::parse_str(text).ok().map(|u| u.as_u128())
}

} // verus!
