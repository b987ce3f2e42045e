use vstd::prelude::*;

use crate::domain::Timestamp;
use crate::domain::article::opt_text;

verus! {

/// What `chrono` writes for the instant `secs` seconds and `nanos`
/// nanoseconds after the Unix epoch in RFC 3339 form (UTC), or `None` when it
/// cannot represent that instant.
pub uninterp spec fn rfc3339_text(secs: i64, nanos: u32) -> Option<Seq<char>>;

/// The instant, as seconds and nanoseconds since the Unix epoch, that
/// `chrono` reads from an RFC 3339 text, or `None` when it rejects the text.
pub uninterp spec fn rfc3339_instant(text: Seq<char>) -> Option<(i64, u32)>;

/// The timestamp that `rfc3339_instant` reads from `text`.
pub open spec fn parsed_timestamp(text: Seq<char>) -> Option<Timestamp> {
    match rfc3339_instant(text) {
        Some((secs, nanos)) => Some(Timestamp { secs, nanos }),
        None => None,
    }
}

/// The instants from 0000-01-01T00:00:00Z to 9999-12-31T23:59:59Z, whose
/// years `to_rfc3339` writes with four digits.
pub open spec fn four_digit_year(secs: i64) -> bool {
    -62167219200 <= secs <= 253402300799
}

/// Calls `chrono::DateTime::<Utc>::from_timestamp` and, when it gives an
/// instant, `to_rfc3339` on it. The result is named `rfc3339_text`. For a
/// year from 0 to 9999, `to_rfc3339` writes the year with four digits, the
/// seconds (60 for a leap second) and every nonzero nanosecond digit group,
/// and `+00:00`, all of which `parse_from_rfc3339` reads back to the same
/// instant.
#[verifier::external_body]
pub(crate) fn format_rfc3339(secs: i64, nanos: u32) -> (text: Option<String>)
    ensures
        opt_text(text) == rfc3339_text(secs, nanos),
        four_digit_year(secs) ==> (text matches Some(t) ==> rfc3339_instant(t@) == Some((secs, nanos))),
{
    chrono::DateTime::from_timestamp(secs, nanos).map(|d| d.to_rfc3339())
}

/// Calls `chrono::DateTime::parse_from_rfc3339` and takes the instant it
/// reads as seconds and nanoseconds since the epoch. The result is named
/// `rfc3339_instant`; nothing more of it is stated.
#[verifier::external_body]
pub(crate) fn parse_rfc3339(text: &str) -> (instant: Option<(i64, u32)>)
    ensures
        instant == rfc3339_instant(text@),
{
    chrono::DateTime::parse_from_rfc3339(text).ok().map(|d| (d.timestamp(), d.timestamp_subsec_nanos()))
}

/// The stored form of a publication time: its RFC 3339 text. For a year
/// from 0 to 9999 the text reads back as the same time.
pub fn timestamp_text(time: Timestamp) -> (text: Option<String>)
    ensures
        opt_text(text) == rfc3339_text(time.secs, time.nanos),
        four_digit_year(time.secs) ==> (text matches Some(t) ==> parsed_timestamp(t@) == Some(time)),
{
    format_rfc3339(time.secs, time.nanos)
}

/// The publication time read back from its stored text; `None` when the text
/// is not RFC 3339.
pub fn timestamp_from_text(text: &str) -> (time: Option<Timestamp>)
    ensures
        time == parsed_timestamp(text@),
{
    match parse_rfc3339(text) {
        Some((secs, nanos)) => Some(Timestamp { secs, nanos }),
        None => None,
    }
}

} // verus!
