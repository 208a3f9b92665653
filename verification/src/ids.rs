//! Identifiers: UUIDs, held as the 128-bit numbers they denote.

use vstd::prelude::*;

verus! {

/// The UUID that `uuid::Uuid::parse_str` reads from `s`, as a 128-bit number; `None`
/// where it refuses `s`.
pub uninterp spec fn uuid_parse(s: Seq<char>) -> Option<u128>;

/// The text of the error that `uuid::Uuid::parse_str` gives for `s`.
pub uninterp spec fn uuid_error(s: Seq<char>) -> Seq<char>;

/// `uuid::Uuid::parse_str(s)`, the UUID taken as its 128-bit number
/// (`Uuid::as_u128`), or the text of the crate's error. The contract names both: the
/// crate accepts the simple, hyphenated, braced and URN forms, and what it reads, or
/// what it reports, depends on `s` alone.
#[verifier::external_body]
pub(crate) fn parse_uuid(s: &str) -> (r: Result<u128, String>)
    ensures
        match r {
            Ok(u) => uuid_parse(s@) == Some(u),
            Err(e) => uuid_parse(s@) is None && e@ == uuid_error(s@),
        },
{
    match uuid::Uuid::parse_str(s) {
        Ok(u) => Ok(u.as_u128()),
        Err(e) => Err(e.to_string()),
    }
}

/// The nil UUID, all of whose bits are zero.
pub const NIL_UUID: u128 = 0;

} // verus!
