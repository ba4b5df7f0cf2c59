//! Identifiers. Aggregates are keyed by 128-bit identifiers; fresh ones are
//! drawn as random UUIDs, and identifier text arriving at the service
//! boundary is parsed as UUID text.

use vstd::prelude::*;
use crate::errors::ServiceError;

verus! {

/// What parsing UUID text yields: `Some` of the 128-bit value when the text
/// is a well-formed UUID, `None` otherwise. The result depends on the
/// characters alone.
pub uninterp spec fn uuid_parse_spec(s: Seq<char>) -> Option<u128>;

/// Relies on uuid::Uuid::try_parse to parse UUID text and on
/// uuid::Uuid::as_u128 to read the parsed value as an integer.
#[verifier::external_body]
pub fn parse_uuid(s: &str) -> (r: Option<u128>)
    ensures
        r == uuid_parse_spec(s@),
{
    match uuid::Uuid::try_parse(s) {
        Ok(u) => Some(u.as_u128()),
        Err(_) => None,
    }
}

/// Relies on uuid::Uuid::new_v4 for a freshly drawn random identifier;
/// nothing is assumed of the draw.
#[verifier::external_body]
pub fn new_id() -> (r: u128) {
    uuid::Uuid::new_v4().as_u128()
}

/// Turn identifier text from the service boundary into an identifier,
/// rejecting malformed text as a bad request.
pub fn string_to_uuid(id: &str) -> (r: Result<u128, ServiceError>)
    ensures
        (r is Ok) == (uuid_parse_spec(id@) is Some),
        r matches Ok(v) ==> uuid_parse_spec(id@) == Some(v),
        r matches Err(e) ==> e is BadRequest,
{
    match parse_uuid(id) {
        Some(v) => Ok(v),
        None => Err(ServiceError::bad_request("the given id is malformed")),
    }
}

} // verus!
