//! Identifiers written as text.

use vstd::prelude::*;

verus! {

/// The 128-bit value of a UUID written as text in one of the forms the uuid
/// crate reads (hyphenated, simple, URN, braced), or none for other text.
pub uninterp spec fn uuid_value(s: Seq<char>) -> Option<u128>;

/// Relies on `uuid::Uuid::try_parse` and `Uuid::as_u128`: the result depends
/// on the text alone, and empty text is no UUID.
#[verifier::external_body]
pub(crate) fn parse_uuid(s: &str) -> (r: Option<u128>)
    ensures
        r == uuid_value(s@),
        s@.len() == 0 ==> r is None,
{
    uuid::Uuid::try_parse(s).ok().map(|u| u.as_u128())
}

} // verus!
