//! Calendar dates, and the UTC date of an epoch second.

use crate::error::ErrorKind;
use chrono::{DateTime, Datelike};
use vstd::prelude::*;

verus! {

/// A date of the proleptic Gregorian calendar.
#[derive(Clone, Copy, Debug, PartialEq, Eq, Structural)]
pub struct CalendarDate {
    pub year: i32,
    pub month: u32,
    pub day: u32,
}

impl CalendarDate {
    /// The month and the day of the month lie in the calendar's ranges.
    pub open spec fn well_formed(self) -> bool {
        &&& 1 <= self.month <= 12
        &&& 1 <= self.day <= 31
    }

    /// The first day of the epoch, which a record holds until a date field
    /// is assigned.
    pub open spec fn epoch() -> CalendarDate {
        CalendarDate { year: 1970, month: 1, day: 1 }
    }
}

impl Default for CalendarDate {
    fn default() -> (date: CalendarDate)
        ensures
            date == CalendarDate::epoch(),
    {
        CalendarDate { year: 1970, month: 1, day: 1 }
    }
}

/// The number of seconds of a day.
pub const SECONDS_PER_DAY: i64 = 86400;

/// The day on which the epoch second `secs` falls, counted from 1 January
/// 1970: the seconds divided by the length of a day, rounded down.
pub open spec fn epoch_day(secs: i64) -> int {
    secs as int / SECONDS_PER_DAY as int
}

/// The calendar date of the day that lies `day` days after 1 January 1970,
/// or `None` where that day lies outside the calendar that `chrono` covers.
pub uninterp spec fn date_of_epoch_day(day: int) -> Option<CalendarDate>;

/// The UTC calendar date on which the epoch second `secs` falls: the date of
/// its day. The time of day plays no part.
pub open spec fn utc_calendar_date(secs: i64) -> Option<CalendarDate> {
    date_of_epoch_day(epoch_day(secs))
}

/// `chrono::DateTime::from_timestamp` with no nanoseconds, and the date part
/// of what it returns, read through `chrono::Datelike`.
///
/// `from_timestamp` divides the seconds by 86400, rounding down, and makes
/// the date from that day number alone; the result is named
/// [`date_of_epoch_day`]. A date that comes back has a month from 1 to 12
/// and a day from 1 to 31, as `Datelike::month` and `Datelike::day`
/// document. `from_timestamp` returns `None` on an out-of-range second and
/// does not panic.
#[verifier::external_body]
pub(crate) fn utc_date_of_timestamp(secs: i64) -> (found: Option<CalendarDate>)
    ensures
        found == date_of_epoch_day(epoch_day(secs)),
        found matches Some(date) ==> date.well_formed(),
{
    let date = DateTime::from_timestamp(secs, 0)?.naive_utc().date();
    Some(CalendarDate { year: date.year(), month: date.month(), day: date.day() })
}

/// The outcome of a date lookup as a decoding result: a second outside the
/// calendar is a [`ErrorKind::DateDecodeError`].
pub open spec fn date_or_error(found: Option<CalendarDate>) -> Result<CalendarDate, ErrorKind> {
    match found {
        Some(date) => Ok(date),
        None => Err(ErrorKind::DateDecodeError),
    }
}

/// Turns the outcome of a date lookup into a decoding result.
pub fn date_from_lookup(found: Option<CalendarDate>) -> (res: Result<CalendarDate, ErrorKind>)
    ensures
        res == date_or_error(found),
{
    match found {
        Some(date) => Ok(date),
        None => Err(ErrorKind::DateDecodeError),
    }
}

} // verus!
