//! Calendar dates in the ISO 8601 form `YYYY-MM-DD`, read as the instant at
//! which the date begins in UTC. The calendar itself is chrono's.

use crate::text::text_view;
use crate::time::Timestamp;
use vstd::prelude::*;

verus! {

/// What chrono makes of `text` as a date in the form `%F`: the seconds since
/// the Unix epoch at which that date begins in UTC, or `None` where `text`
/// is no such date.
pub uninterp spec fn iso_date_midnight(text: Seq<char>) -> Option<i64>;

/// How chrono writes the date, in the form `%F`, on which the instant of
/// `secs` seconds and `nanos` nanoseconds since the Unix epoch falls in UTC,
/// or `None` where chrono's calendar does not reach that instant.
pub uninterp spec fn iso_date_text(secs: i64, nanos: u32) -> Option<Seq<char>>;

/// Calls `chrono::NaiveDate::parse_from_str` with the format `%F`, then
/// `and_hms_micro_opt(0, 0, 0, 0)`, `and_local_timezone(Utc)` and
/// `LocalResult::single`, and reads the instant with `DateTime::timestamp`.
/// The contract gives the outcome its name and claims nothing more of it:
/// chrono parses without regard to locale, time zone of the machine or clock.
#[verifier::external_body]
fn parse_date(value: &str) -> (r: Option<i64>)
    ensures
        r == iso_date_midnight(value@),
{
    let date = chrono::NaiveDate::parse_from_str(value, "%F").ok()?;
    let midnight = date.and_hms_micro_opt(0, 0, 0, 0)?;
    let instant = midnight.and_local_timezone(chrono::Utc).single()?;
    Some(instant.timestamp())
}

/// Calls `chrono::DateTime::from_timestamp` and writes the instant with
/// `DateTime::format` and the format `%F`. The contract gives the outcome
/// its name and claims nothing more of it.
#[verifier::external_body]
fn format_date(secs: i64, nanos: u32) -> (r: Option<String>)
    ensures
        text_view(r) == iso_date_text(secs, nanos),
{
    match chrono::DateTime::from_timestamp(secs, nanos) {
        Some(instant) => Some(format!("{}", instant.format("%F"))),
        None => None,
    }
}

/// The message for a text that is no date.
pub open spec fn invalid_ts_text(value: Seq<char>) -> Seq<char> {
    "value is not a legal timestamp: "@ + value
}

/// The message that rejects `value` as a timestamp.
pub fn invalid_ts(value: &str) -> (message: String)
    ensures
        message@ == invalid_ts_text(value@),
{
    String::from_str("value is not a legal timestamp: ").concat(value)
}

/// What reading `value` comes to, given what the calendar made of it.
pub open spec fn read_date(value: Seq<char>, midnight: Option<i64>, r: Result<
    Timestamp,
    String,
>) -> bool {
    match midnight {
        Some(secs) => r matches Ok(instant) && instant.seconds() == secs && instant.subsec() == 0,
        None => r matches Err(message) && message@ == invalid_ts_text(value),
    }
}

/// Reads texts in the form `YYYY-MM-DD`.
#[derive(Debug)]
pub struct IsoDateVisitor;

impl IsoDateVisitor {
    /// What this visitor reads.
    pub fn expecting(&self) -> (text: &'static str)
        ensures
            text@ == "an ISO 8601 date string"@,
    {
        "an ISO 8601 date string"
    }

    /// The instant at which the date begins that the calendar made of
    /// `value`, or the message that rejects `value` where it made none.
    pub fn conclude(&self, value: &str, midnight: Option<i64>) -> (r: Result<Timestamp, String>)
        ensures
            read_date(value@, midnight, r),
    {
        match midnight {
            Some(secs) => Ok(Timestamp::from_secs(secs)),
            None => Err(invalid_ts(value)),
        }
    }

    /// The instant at which the date `value` begins in UTC.
    pub fn visit_str(&self, value: &str) -> (r: Result<Timestamp, String>)
        ensures
            read_date(value@, iso_date_midnight(value@), r),
    {
        let midnight = parse_date(value);
        self.conclude(value, midnight)
    }
}

/// The date on which `dt` falls in UTC, as `YYYY-MM-DD`, or `None` where the
/// calendar does not reach `dt`.
pub fn serialize(dt: &Timestamp) -> (r: Option<String>)
    ensures
        text_view(r) == iso_date_text(dt.seconds() as i64, dt.subsec() as u32),
{
    format_date(dt.secs(), dt.nanos())
}

/// The instant at which the date `value` begins in UTC.
pub fn deserialize(value: &str) -> (r: Result<Timestamp, String>)
    ensures
        read_date(value@, iso_date_midnight(value@), r),
{
    IsoDateVisitor.visit_str(value)
}

} // verus!
