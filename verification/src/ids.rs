//! Identifiers and the clock.
//!
//! Pages, technologies and versions are identified by the 128 bits of a
//! UUID; tasks by a UUID in its hyphenated text form. Times are
//! milliseconds since the Unix epoch.

use vstd::prelude::*;

verus! {

/// The hyphenated lowercase text of the UUID with this value, as the
/// `Display` of `uuid::Uuid` writes it.
pub uninterp spec fn uuid_text(id: u128) -> Seq<char>;

/// The value of the UUID that `Uuid::parse_str` reads from a text; `None`
/// where it rejects the text.
pub uninterp spec fn uuid_value(text: Seq<char>) -> Option<u128>;

/// `Uuid::new_v4` and `Uuid::as_u128`: a random identifier. Nothing is
/// known of the value.
#[verifier::external_body]
pub(crate) fn random_id() -> (r: u128) {
    uuid::Uuid::new_v4().as_u128()
}

/// `Utc::now` and `DateTime::timestamp_millis`: the present time. Nothing
/// is known of the value.
#[verifier::external_body]
pub(crate) fn now_millis() -> (r: i64) {
    chrono::Utc::now().timestamp_millis()
}

/// `Uuid::from_u128` and the `Display` of the result: the hyphenated text
/// of an identifier.
#[verifier::external_body]
pub(crate) fn id_text(id: u128) -> (r: String)
    ensures
        r@ == uuid_text(id),
{
    uuid::Uuid::from_u128(id).to_string()
}

/// `Uuid::parse_str` and `Uuid::as_u128`: the identifier that a text
/// writes.
#[verifier::external_body]
pub(crate) fn parse_id(text: &str) -> (r: Option<u128>)
    ensures
        r == uuid_value(text@),
{
    uuid::Uuid::parse_str(text).ok().map(|u| u.as_u128())
}

} // verus!
