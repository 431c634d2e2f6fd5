//! Timestamps as text.

use vstd::prelude::*;

verus! {

/// The last second that the calendar of the `chrono` crate can hold: the end
/// of the year 262142.
pub const MAX_TIMESTAMP: i64 = 8_210_266_876_799;

/// The RFC 3339 text of a moment in UTC, given as seconds since the Unix
/// epoch, as the `chrono` crate writes it.
pub uninterp spec fn rfc3339_utc(secs: int) -> Seq<char>;

/// Calls `chrono::DateTime::from_timestamp` and `to_rfc3339` on its result.
/// The contract names the text, and claims that a moment between the epoch
/// and [`MAX_TIMESTAMP`] has one.
#[verifier::external_body]
fn rfc3339_from_unix(secs: i64) -> (text: Option<String>)
    ensures
        0 <= secs <= MAX_TIMESTAMP ==> text is Some,
        text matches Some(t) ==> t@ == rfc3339_utc(secs as int),
{
    chrono::DateTime::from_timestamp(secs, 0).map(|moment| moment.to_rfc3339())
}

/// The RFC 3339 text of a Unix timestamp, in UTC.
pub fn timestamp_to_iso8601(timestamp: i64) -> (text: String)
    requires
        0 <= timestamp <= MAX_TIMESTAMP,
    ensures
        text@ == rfc3339_utc(timestamp as int),
{
    match rfc3339_from_unix(timestamp) {
        Some(text) => text,
        None => vstd::pervasive::unreached(),
    }
}

/// The text that a table shows for an optional timestamp: its RFC 3339 form,
/// or a dash where there is none.
pub open spec fn timestamp_cell(timestamp: Option<i32>) -> Seq<char> {
    match timestamp {
        Some(t) => rfc3339_utc(t as int),
        None => seq!['-'],
    }
}

} // verus!
