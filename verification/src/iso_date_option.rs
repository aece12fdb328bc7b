//! Optional calendar dates: a date in the form `YYYY-MM-DD`, or none.

use crate::iso_date::{iso_date_midnight, iso_date_text, read_date, IsoDateVisitor};
use crate::time::Timestamp;
use vstd::prelude::*;

verus! {

/// The date on which `opt` falls, if it holds an instant: `Some(None)` for
/// no instant, `Some(Some(date))` for an instant that the calendar reaches,
/// and `None` for one that it does not reach.
pub fn serialize(opt: &Option<Timestamp>) -> (r: Option<Option<String>>)
    ensures
        match *opt {
            None => r == Some(None::<String>),
            Some(dt) => match iso_date_text(dt.seconds() as i64, dt.subsec() as u32) {
                Some(text) => r matches Some(Some(date)) && date@ == text,
                None => r is None,
            },
        },
{
    match opt {
        None => Some(None),
        Some(dt) => match crate::iso_date::serialize(dt) {
            Some(date) => Some(Some(date)),
            None => None,
        },
    }
}

/// The instant at which the date `value` begins in UTC, if there is a value.
pub fn deserialize(value: Option<&str>) -> (r: Result<Option<Timestamp>, String>)
    ensures
        match value {
            None => r == Ok::<Option<Timestamp>, String>(None),
            Some(text) => match iso_date_midnight(text@) {
                Some(secs) => r matches Ok(Some(instant)) && read_date(
                    text@,
                    Some(secs),
                    Ok(instant),
                ),
                None => r matches Err(message) && read_date(text@, None, Err(message)),
            },
        },
{
    match value {
        None => Ok(None),
        Some(text) => match IsoDateVisitor.visit_str(text) {
            Ok(instant) => Ok(Some(instant)),
            Err(message) => Err(message),
        },
    }
}

} // verus!
