//! The queries sent for users and parties, and what becomes of their rows.
pub mod parties;
pub mod users;

use vstd::prelude::*;

use crate::decimal::{i64_to_text, int_text};

verus! {

/// `c` is a lower-case hexadecimal digit.
pub open spec fn is_lower_hex(c: char) -> bool {
    ('0' <= c && c <= '9') || ('a' <= c && c <= 'f')
}

/// The positions of the hyphens in the hyphenated text of a UUID.
pub open spec fn is_hyphen_position(i: int) -> bool {
    i == 8 || i == 13 || i == 18 || i == 23
}

/// `s` is the lower-case hyphenated text of a random (version 4, RFC 4122
/// variant) UUID, such as `936da01f-9abd-4d9d-80c7-02af85c822a8`.
pub open spec fn is_v4_uuid_text(s: Seq<char>) -> bool {
    &&& s.len() == 36
    &&& forall|i: int|
        0 <= i < 36 ==> if is_hyphen_position(i) {
            s[i] == '-'
        } else {
            is_lower_hex(#[trigger] s[i])
        }
    &&& s[14] == '4'
    &&& (s[19] == '8' || s[19] == '9' || s[19] == 'a' || s[19] == 'b')
}

/// Calls `uuid::Uuid::new_v4` and writes the UUID with `Display`. The UUID
/// is random, so only its shape is stated: `new_v4` sets the version nibble
/// to 4 and the variant bits to `10`, and `Display` writes the lower-case
/// hyphenated form.
#[verifier::external_body]
pub(crate) fn generate_uuid() -> (res: String)
    ensures
        is_v4_uuid_text(res@),
{
    format!("{}", uuid::Uuid::new_v4())
}

/// The cursor that continues after a row created at `created_at`: its
/// timestamp written in decimal.
pub fn next_cursor(created_at: Option<i64>) -> (res: Option<String>)
    ensures
        res is Some <==> created_at is Some,
        res matches Some(c) ==> c@ == int_text(created_at->0 as int),
{
    match created_at {
        Some(t) => Some(i64_to_text(t)),
        None => None,
    }
}

/// The earliest timestamp (seconds since the Unix epoch) that a date-time
/// can hold: the start of 1 January of the year -262143.
pub const MIN_DATETIME_TIMESTAMP: i64 = -8334601228800i64;

/// The latest whole-second timestamp that a date-time can hold: the last
/// second of 31 December of the year 262142.
pub const MAX_DATETIME_TIMESTAMP: i64 = 8210266876799i64;

/// A date-time exists at `secs` seconds since the Unix epoch, so that a
/// listing can start after it.
pub open spec fn timestamp_in_range(secs: int) -> bool {
    MIN_DATETIME_TIMESTAMP <= secs && secs <= MAX_DATETIME_TIMESTAMP
}

/// Calls `chrono::DateTime::<Utc>::from_timestamp(secs, 0)` and tells
/// whether it gives a date-time. It does exactly when the day of `secs` lies
/// between `NaiveDate::MIN` (year -262143) and `NaiveDate::MAX` (year
/// 262142), which is the range stated.
#[verifier::external_body]
fn datetime_exists_at(secs: i64) -> (res: bool)
    ensures
        res == timestamp_in_range(secs as int),
{
    chrono::DateTime::<chrono::Utc>::from_timestamp(secs, 0).is_some()
}

/// Whether a listing can start after the timestamp `secs`: whether a
/// date-time exists at it. A listing asked with a cursor for which there is
/// none is refused (the listing functions require it).
pub fn timestamp_representable(secs: i64) -> (res: bool)
    ensures
        res == timestamp_in_range(secs as int),
{
    datetime_exists_at(secs)
}

/// A copy of an optional text.
pub(crate) fn clone_text(s: &Option<String>) -> (res: Option<String>)
    ensures
        res == *s,
{
    match s {
        Some(t) => Some(t.clone()),
        None => None,
    }
}

/// Whether a page of `len` rows fills the `limit`: the rows are counted as an
/// `i64`, as the listing queries count them.
pub fn fills_limit(len: usize, limit: i64) -> (res: bool)
    ensures
        res == (len as i64 == limit),
{
    len as i64 == limit
}

} // verus!
