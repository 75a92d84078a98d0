//! Timestamp normalisation, resting on chrono.
//!
//! A bar carries its event time as an RFC 3339 string. Before a record is
//! persisted the time is normalised to UTC, once as a `YYYY-MM-DD HH:MM:SS`
//! text and once as milliseconds since the Unix epoch. Both are functions of
//! the input string alone, so the library names their results and states the
//! wrapper's contract over those names.

use vstd::prelude::*;

verus! {

/// Whether chrono accepts the string as an RFC 3339 datetime.
pub uninterp spec fn ts_parse_ok(s: Seq<char>) -> bool;

/// The parsed datetime rendered in UTC as `YYYY-MM-DD HH:MM:SS`.
pub uninterp spec fn ts_sqlite_text(s: Seq<char>) -> Seq<char>;

/// The parsed datetime as milliseconds since the Unix epoch.
pub uninterp spec fn ts_unix_millis(s: Seq<char>) -> i64;

/// Normalises an RFC 3339 timestamp to UTC, as a `YYYY-MM-DD HH:MM:SS` text
/// and as Unix-epoch milliseconds, or `None` when the string does not parse.
///
/// Relies on chrono: `DateTime::parse_from_rfc3339` to read the string,
/// `with_timezone(&Utc)` to normalise the offset, `format` with
/// `%Y-%m-%d %H:%M:%S` to render it, and `timestamp_millis` for the epoch
/// value. Each of these depends on the characters of the input alone.
#[verifier::external_body]
pub fn format_timestamp_utc(datetime: &str) -> (r: Option<(String, i64)>)
    ensures
        r is Some <==> ts_parse_ok(datetime@),
        r matches Some(p) ==> p.0@ == ts_sqlite_text(datetime@) && p.1 == ts_unix_millis(
            datetime@,
        ),
{
    let dt = match chrono::DateTime::parse_from_rfc3339(datetime) {
        Ok(dt) => dt,
        Err(_) => {
            return None;
        },
    };
    let dt_utc = dt.with_timezone(&chrono::Utc);
    let text = dt_utc.format("%Y-%m-%d %H:%M:%S").to_string();
    Some((text, dt_utc.timestamp_millis()))
}

} // verus!
