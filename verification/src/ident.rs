//! Book ids. An id is the 128-bit value of a UUID; its text form is the
//! hyphenated one.

use vstd::prelude::*;

verus! {

/// The error of the `uuid` crate's parser.
#[verifier::external_type_specification]
#[verifier::external_body]
pub struct ExUuidError(uuid::Error);

/// The id that the `uuid` crate reads from a text, if it reads one.
pub uninterp spec fn uuid_value(text: Seq<char>) -> Option<u128>;

/// The hyphenated lowercase text that the `uuid` crate writes for an id.
pub uninterp spec fn uuid_text(id: u128) -> Seq<char>;

/// `Uuid::new_v4`: a random id. Nothing is claimed of it.
#[verifier::external_body]
pub(crate) fn random_uuid() -> u128 {
    uuid::Uuid::new_v4().as_u128()
}

/// `Uuid::parse_str`: what it returns is a function of the text alone.
#[verifier::external_body]
pub(crate) fn parse_uuid(text: &str) -> (r: Result<u128, uuid::Error>)
    ensures
        match r {
            Ok(id) => uuid_value(text@) == Some(id),
            Err(_) => uuid_value(text@) is None,
        },
{
    match uuid::Uuid::parse_str(text) {
        Ok(id) => Ok(id.as_u128()),
        Err(e) => Err(e),
    }
}

/// `Uuid`'s `to_string`: the text is a function of the id alone, and the
/// parser reads the id back from it, as the crate documents of every
/// format that it writes.
#[verifier::external_body]
pub(crate) fn format_uuid(id: u128) -> (r: String)
    ensures
        r@ == uuid_text(id),
        uuid_value(r@) == Some(id),
{
    uuid::Uuid::from_u128(id).to_string()
}

/// Reads an id from its text form: the hyphenated form, or any other
/// form that a UUID is written in.
pub fn parse_id(text: &str) -> (r: Option<u128>)
    ensures
        r == uuid_value(text@),
{
    match parse_uuid(text) {
        Ok(id) => Some(id),
        Err(_) => None,
    }
}

} // verus!
