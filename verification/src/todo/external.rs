//! The calls into `uuid` and `time` that the to-do logic makes, each behind a
//! contract that this crate takes on trust.
use vstd::prelude::*;

verus! {

/// `time::OffsetDateTime`. The library only carries such values through: it never
/// reads what is inside one.
#[verifier::external_type_specification]
#[verifier::external_body]
pub struct ExOffsetDateTime(time::OffsetDateTime);

/// Calls `time::OffsetDateTime::now_utc`, the current date and time in UTC. What it
/// returns depends on the system clock, so nothing is stated of it. (It converts
/// `SystemTime::now()`, which can only fail for a clock set outside the years
/// that `time` represents.)
#[verifier::external_body]
pub(crate) fn now_utc() -> time::OffsetDateTime {
    time::OffsetDateTime::now_utc()
}

/// The 128-bit value of a version 4 (random) UUID: the version nibble is 4 and the
/// variant bits are `10`.
pub open spec fn is_random_uuid(bits: u128) -> bool {
    &&& (bits >> 76u128) & 0xfu128 == 4
    &&& (bits >> 62u128) & 3u128 == 2
}

/// Calls `uuid::Uuid::new_v4` and takes the new UUID's big-endian 128-bit value
/// (`Uuid::as_u128`). The value is random; `new_v4` masks the random bits so that
/// the version nibble is 4 and the variant bits are `10`, which is all that is
/// claimed here.
#[verifier::external_body]
pub(crate) fn new_v4_bits() -> (bits: u128)
    ensures
        is_random_uuid(bits),
{
    uuid::Uuid::new_v4().as_u128()
}

/// What `uuid::Uuid::parse_str` makes of a text: the 128-bit value of the UUID it
/// denotes, or `None` where it rejects the text.
pub uninterp spec fn parsed_uuid(text: Seq<char>) -> Option<u128>;

/// Calls `uuid::Uuid::parse_str` and takes the parsed UUID's big-endian 128-bit
/// value. The accepted forms (simple, hyphenated, braced, URN) are not written out
/// here: the result is named `parsed_uuid` of the text, a function of the text alone.
#[verifier::external_body]
pub(crate) fn parse_uuid(text: &str) -> (r: Option<u128>)
    ensures
        r == parsed_uuid(text@),
{
    match uuid::Uuid::parse_str(text) {
        Ok(u) => Some(u.as_u128()),
        Err(_) => None,
    }
}

} // verus!
