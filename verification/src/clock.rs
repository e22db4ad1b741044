//! Time: the current instant, and instants as RFC 3339 text.

use vstd::prelude::*;
use crate::book::Timestamp;

verus! {

/// The error of the `chrono` crate's parser.
#[verifier::external_type_specification]
#[verifier::external_body]
pub struct ExParseError(chrono::ParseError);

/// The RFC 3339 text that `chrono` writes for an instant in UTC, where
/// `chrono` can hold that instant.
pub uninterp spec fn rfc3339_text(secs: i64, nanos: u32) -> Option<Seq<char>>;

/// The instant that `chrono` reads from a text, if it reads one:
/// seconds since the epoch and nanoseconds into the second.
pub uninterp spec fn rfc3339_instant(text: Seq<char>) -> Option<(i64, u32)>;

/// `Utc::now`: the current instant. Nothing is claimed of it.
#[verifier::external_body]
pub(crate) fn current_time() -> Timestamp {
    let t = chrono::Utc::now();
    Timestamp { secs: t.timestamp(), nanos: t.timestamp_subsec_nanos() }
}

/// `DateTime::to_rfc3339` on the instant that `DateTime::from_timestamp`
/// makes of the two numbers: the text is a function of them alone, and
/// there is none where `from_timestamp` makes no instant.
#[verifier::external_body]
pub(crate) fn format_rfc3339(secs: i64, nanos: u32) -> (r: Option<String>)
    ensures
        match r {
            Some(text) => rfc3339_text(secs, nanos) == Some(text@),
            None => rfc3339_text(secs, nanos) is None,
        },
{
    match chrono::DateTime::from_timestamp(secs, nanos) {
        Some(t) => Some(t.to_rfc3339()),
        None => None,
    }
}

/// `str::parse` to a `DateTime<Utc>`: what it returns is a function of
/// the text alone.
#[verifier::external_body]
pub(crate) fn parse_rfc3339(text: &str) -> (r: Result<Timestamp, chrono::ParseError>)
    ensures
        match r {
            Ok(t) => rfc3339_instant(text@) == Some((t.secs, t.nanos)),
            Err(_) => rfc3339_instant(text@) is None,
        },
{
    match text.parse::<chrono::DateTime<chrono::Utc>>() {
        Ok(t) => Ok(Timestamp { secs: t.timestamp(), nanos: t.timestamp_subsec_nanos() }),
        Err(e) => Err(e),
    }
}

/// The text of an instant, where it has one.
pub open spec fn time_text(t: Timestamp) -> Option<Seq<char>> {
    rfc3339_text(t.secs, t.nanos)
}

/// The instant that a text writes, where it writes one.
pub open spec fn time_value(text: Seq<char>) -> Option<Timestamp> {
    match rfc3339_instant(text) {
        Some((secs, nanos)) => Some(Timestamp { secs, nanos }),
        None => None,
    }
}

/// Writes an instant as RFC 3339 text. An instant that the calendar
/// does not reach has no text.
pub fn write_time(t: Timestamp) -> (r: Option<String>)
    ensures
        match r {
            Some(text) => time_text(t) == Some(text@),
            None => time_text(t) is None,
        },
{
    format_rfc3339(t.secs, t.nanos)
}

/// Reads an instant from RFC 3339 text.
pub fn read_time(text: &str) -> (r: Option<Timestamp>)
    ensures
        r == time_value(text@),
{
    match parse_rfc3339(text) {
        Ok(t) => Some(t),
        Err(_) => None,
    }
}

} // verus!
