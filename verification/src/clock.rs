//! The moment of a request, and how Amazon writes it: `YYYYMMDDTHHMMSSZ` for
//! the moment and `YYYYMMDD` for its date, both in UTC. The clock is read and
//! the text is written by the `chrono` crate.

use vstd::prelude::*;
use vstd::string::*;

verus! {

/// The `chrono` pattern of the timestamp of a request.
pub const AMZ_TIME_PATTERN: &'static str = "%Y%m%dT%H%M%SZ";

/// The `chrono` pattern of the date of a request.
pub const AMZ_DATE_PATTERN: &'static str = "%Y%m%d";

/// The text that `chrono` writes, by a pattern, for the moment that lies
/// `seconds` seconds after the start of 1970 in UTC; none where `chrono`
/// cannot hold that moment.
pub uninterp spec fn utc_text(seconds: i64, pattern: Seq<char>) -> Option<Seq<char>>;

/// `chrono::Utc::now`, as whole seconds since the start of 1970. Nothing is
/// promised of the result.
#[verifier::external_body]
pub(crate) fn utc_now() -> (seconds: i64) {
    chrono::Utc::now().timestamp()
}

/// `chrono::DateTime::from_timestamp` and `format`: the moment written by one
/// of the two patterns above, or none where the seconds are out of `chrono`'s
/// range.
#[verifier::external_body]
fn format_utc(seconds: i64, pattern: &str) -> (r: Option<String>)
    requires
        pattern@ == AMZ_TIME_PATTERN@ || pattern@ == AMZ_DATE_PATTERN@,
    ensures
        match r {
            Some(text) => utc_text(seconds, pattern@) == Some(text@),
            None => utc_text(seconds, pattern@) is None,
        },
{
    match chrono::DateTime::from_timestamp(seconds, 0) {
        Some(moment) => Some(moment.format(pattern).to_string()),
        None => None,
    }
}

/// The timestamp of a moment, as `YYYYMMDDTHHMMSSZ`.
pub open spec fn amz_time_text(seconds: i64) -> Option<Seq<char>> {
    utc_text(seconds, AMZ_TIME_PATTERN@)
}

/// The date of a moment, as `YYYYMMDD`.
pub open spec fn amz_date_text(seconds: i64) -> Option<Seq<char>> {
    utc_text(seconds, AMZ_DATE_PATTERN@)
}

/// Writes the timestamp of a moment; none where the moment is out of range.
pub fn amz_time(seconds: i64) -> (r: Option<String>)
    ensures
        match r {
            Some(text) => amz_time_text(seconds) == Some(text@),
            None => amz_time_text(seconds) is None,
        },
{
    format_utc(seconds, AMZ_TIME_PATTERN)
}

/// Writes the date of a moment; none where the moment is out of range.
pub fn amz_date(seconds: i64) -> (r: Option<String>)
    ensures
        match r {
            Some(text) => amz_date_text(seconds) == Some(text@),
            None => amz_date_text(seconds) is None,
        },
{
    format_utc(seconds, AMZ_DATE_PATTERN)
}

} // verus!
