//! Points in time, as the object store reports them.

use vstd::prelude::*;

verus! {

/// An instant: whole seconds since 1970-01-01T00:00:00Z, not counting leap
/// seconds, and the nanoseconds past that second.
#[derive(Clone, Copy, Debug, PartialEq, Eq, Structural)]
pub struct Timestamp {
    pub seconds: i64,
    pub nanos: u32,
}

/// `chrono::ParseError`: why a text is no date and time. Nothing is read
/// from it.
#[verifier::external_type_specification]
#[verifier::external_body]
pub struct ExTimeParseError(chrono::ParseError);

/// The instant that `chrono::DateTime::parse_from_rfc3339` reads from
/// `text`, as seconds and nanoseconds; `None` where it refuses `text`.
pub uninterp spec fn rfc3339_instant(text: Seq<char>) -> Option<(i64, u32)>;

/// Parses `text` with `chrono::DateTime::parse_from_rfc3339` and converts
/// the date it returns with `timestamp` and `timestamp_subsec_nanos`. The
/// result depends on `text` alone; the contract gives it the name
/// `rfc3339_instant` and claims nothing else of it.
#[verifier::external_body]
fn parse_rfc3339(text: &str) -> (r: Result<Timestamp, chrono::ParseError>)
    ensures
        match r {
            Ok(t) => rfc3339_instant(text@) == Some((t.seconds, t.nanos)),
            Err(_) => rfc3339_instant(text@) is None,
        },
{
    let parsed = chrono::DateTime::parse_from_rfc3339(text)?;
    Ok(Timestamp { seconds: parsed.timestamp(), nanos: parsed.timestamp_subsec_nanos() })
}

/// The instant written in `text`, where `text` is an RFC 3339 date and time.
pub open spec fn instant_of(text: Seq<char>) -> Option<Timestamp> {
    match rfc3339_instant(text) {
        Some(read) => Some(Timestamp { seconds: read.0, nanos: read.1 }),
        None => None,
    }
}

/// Reads an RFC 3339 date and time.
pub fn parse_timestamp(text: &str) -> (r: Option<Timestamp>)
    ensures
        r == instant_of(text@),
{
    match parse_rfc3339(text) {
        Ok(t) => Some(t),
        Err(_) => None,
    }
}

} // verus!
