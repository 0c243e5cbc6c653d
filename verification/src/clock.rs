//! Instants on the UTC time line, and reading one from the text of a record's
//! creation time.

use vstd::prelude::*;

verus! {

/// An instant, as chrono counts it: whole non-leap seconds since
/// 1970-01-01T00:00:00Z, and the nanoseconds past that second. During a leap
/// second `nanos` runs on past 999,999,999.
#[derive(Clone, Copy, Debug, PartialEq, Eq, Structural)]
pub struct Timestamp {
    pub secs: i64,
    pub nanos: u32,
}

/// What chrono makes of `text` read as an RFC 3339 date and time: the instant
/// it denotes, as seconds and nanoseconds, or the message of chrono's error.
pub uninterp spec fn rfc3339_reading(text: Seq<char>) -> Result<(i64, u32), Seq<char>>;

/// A reading with its instant as a `Timestamp`.
pub open spec fn as_instant(reading: Result<(i64, u32), Seq<char>>) -> Result<
    Timestamp,
    Seq<char>,
> {
    match reading {
        Ok(at) => Ok(Timestamp { secs: at.0, nanos: at.1 }),
        Err(why) => Err(why),
    }
}

/// The view of a reading: the message of a failure as its characters.
pub open spec fn reading_view(r: Result<Timestamp, String>) -> Result<Timestamp, Seq<char>> {
    match r {
        Ok(at) => Ok(at),
        Err(why) => Err(why@),
    }
}

/// Calls chrono's `DateTime::parse_from_rfc3339` and moves the result to UTC
/// with `DateTime::with_timezone`. The contract is not proved: it claims that
/// what comes back is a function of `text` alone, which `rfc3339_reading`
/// names. An instant is handed on as chrono's `timestamp()` and
/// `timestamp_subsec_nanos()`, an error as the text of its `Display`.
#[verifier::external_body]
pub(crate) fn read_rfc3339(text: &str) -> (r: Result<Timestamp, String>)
    ensures
        reading_view(r) == as_instant(rfc3339_reading(text@)),
{
    match chrono::DateTime::parse_from_rfc3339(text) {
        Ok(at) => {
            let utc = at.with_timezone(&chrono::Utc);
            Ok(Timestamp { secs: utc.timestamp(), nanos: utc.timestamp_subsec_nanos() })
        },
        Err(why) => Err(why.to_string()),
    }
}

} // verus!
