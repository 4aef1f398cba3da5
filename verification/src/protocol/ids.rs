//! Protocol version label and UUID version checks.

use vstd::prelude::*;

verus! {

/// The one protocol major this library speaks.
pub const PROTOCOL_V1: &'static str = "workbench/1";

/// The version nibble of a UUID held as a big-endian `u128`: the high four
/// bits of byte 6 (`uuid::Uuid::get_version_num`).
pub open spec fn uuid_version(id: u128) -> u128 {
    (id >> 76u128) & 0xfu128
}

/// A UUID is a UUIDv7 (`Uuid::get_version() == Some(Version::SortRand)`)
/// exactly when its version nibble is 7.
pub fn is_uuid_v7(id: u128) -> (r: bool)
    ensures
        r == (uuid_version(id) == 7),
{
    (id >> 76u128) & 0xfu128 == 7
}

/// The value of a UUID written as text, as `uuid::Uuid::parse_str` reads it
/// (hyphenated, simple, braced or URN form), or `None` when it rejects it.
pub uninterp spec fn uuid_from_text(text: Seq<char>) -> Option<u128>;

/// Parses a UUID (`uuid::Uuid::parse_str`, then `Uuid::as_u128`).
#[verifier::external_body]
pub(crate) fn parse_uuid(text: &str) -> (r: Option<u128>)
    ensures
        r == uuid_from_text(text@),
{
    uuid::Uuid::parse_str(text).ok().map(|id| id.as_u128())
}

} // verus!
