use vstd::prelude::*;

use crate::models::LedgerError;

verus! {

/// The identifier that a text names, if it names one.
pub uninterp spec fn uuid_of_text(text: Seq<char>) -> Option<u128>;

/// Relies on uuid's `Uuid::parse_str`, which reads the hyphenated, simple,
/// braced and URN forms, and on `Uuid::as_u128`.
#[verifier::external_body]
fn parse_uuid_text(text: &str) -> (r: Option<u128>)
    ensures
        r == uuid_of_text(text@),
{
    uuid::Uuid::parse_str(text).ok().map(|u| u.as_u128())
}

/// Relies on uuid's `Uuid::new_v4`: a random identifier. Nothing is promised
/// of its value.
#[verifier::external_body]
pub(crate) fn fresh_id() -> (r: u128) {
    uuid::Uuid::new_v4().as_u128()
}

/// Reads an identifier given as text; text of any other shape is a malformed
/// reference.
pub fn parse_id(text: &str) -> (r: Result<u128, LedgerError>)
    ensures
        uuid_of_text(text@) matches Some(v) ==> r == Ok::<u128, LedgerError>(v),
        uuid_of_text(text@) is None ==> r == Err::<u128, LedgerError>(LedgerError::MalformedReference),
{
    match parse_uuid_text(text) {
        Some(v) => Ok(v),
        None => Err(LedgerError::MalformedReference),
    }
}

} // verus!
