use vstd::prelude::*;
use chrono::{Datelike, Timelike};

verus! {

/// Earliest year that chrono's calendar dates can hold.
pub const MIN_YEAR: i32 = -262143;

/// Latest year that chrono's calendar dates can hold.
pub const MAX_YEAR: i32 = 262142;

pub open spec fn is_leap_year(y: int) -> bool {
    (y % 4 == 0 && y % 100 != 0) || y % 400 == 0
}

pub open spec fn days_in_month(y: int, m: int) -> int {
    if m == 2 {
        if is_leap_year(y) { 29 } else { 28 }
    } else if m == 4 || m == 6 || m == 9 || m == 11 {
        30
    } else {
        31
    }
}

/// A day of the proleptic Gregorian calendar within the supported years.
pub open spec fn valid_calendar_date(y: int, m: int, d: int) -> bool {
    MIN_YEAR <= y <= MAX_YEAR && 1 <= m <= 12 && 1 <= d <= days_in_month(y, m)
}

/// Relies on chrono::NaiveDate::from_ymd_opt, which returns a date exactly
/// when the year is in chrono's range and month and day name a real day.
#[verifier::external_body]
fn calendar_date_exists(year: i32, month: u32, day: u32) -> (r: bool)
    ensures
        r == valid_calendar_date(year as int, month as int, day as int),
{
    chrono::NaiveDate::from_ymd_opt(year, month, day).is_some()
}

/// Relies on chrono::NaiveTime::from_hms_milli_opt, which accepts hours below
/// 24, minutes and seconds below 60, and milliseconds below 1000, or below
/// 2000 on second 59 (a leap second).
#[verifier::external_body]
fn clock_time_exists(hour: u32, minute: u32, second: u32, milli: u32) -> (r: bool)
    ensures
        r == (hour < 24 && minute < 60 && second < 60 && (milli < 1000 || (second == 59
            && milli < 2000))),
{
    chrono::NaiveTime::from_hms_milli_opt(hour, minute, second, milli).is_some()
}

/// An instant in UTC, as calendar fields with nanosecond resolution.
#[derive(Clone, Copy, Debug, PartialEq, Eq, Structural)]
pub struct UtcDateTime {
    pub year: i32,
    pub month: u32,
    pub day: u32,
    pub hour: u32,
    pub minute: u32,
    pub second: u32,
    pub nanosecond: u32,
}

/// A calendar date with no zone attached.
#[derive(Clone, Copy, Debug, PartialEq, Eq, Structural)]
pub struct CalendarDate {
    pub year: i32,
    pub month: u32,
    pub day: u32,
}

/// A time of day with millisecond resolution and no zone attached.
#[derive(Clone, Copy, Debug, PartialEq, Eq, Structural)]
pub struct TimeOfDay {
    pub hour: u32,
    pub minute: u32,
    pub second: u32,
    pub millisecond: u32,
}

/// The naive date/time pair that storage holds for an instant.
#[derive(Clone, Copy, Debug, PartialEq, Eq, Structural)]
pub struct StoredDateTime {
    pub date: CalendarDate,
    pub time: TimeOfDay,
}

/// Why a stored pair does not name an instant.
#[derive(Clone, Copy, Debug, PartialEq, Eq, Structural)]
pub enum DateTimeError {
    InvalidDate,
    InvalidTime,
}

impl UtcDateTime {
    /// A real instant: an existing day, a time of day without leap second.
    pub open spec fn wf(self) -> bool {
        &&& valid_calendar_date(self.year as int, self.month as int, self.day as int)
        &&& self.hour < 24
        &&& self.minute < 60
        &&& self.second < 60
        &&& self.nanosecond < 1_000_000_000
    }

    /// Builds an instant from its fields, or `None` where they name none.
    pub fn new(
        year: i32,
        month: u32,
        day: u32,
        hour: u32,
        minute: u32,
        second: u32,
        nanosecond: u32,
    ) -> (r: Option<UtcDateTime>)
        ensures
            r == (if (UtcDateTime { year, month, day, hour, minute, second, nanosecond }).wf() {
                Some(UtcDateTime { year, month, day, hour, minute, second, nanosecond })
            } else {
                None
            }),
    {
        let x = UtcDateTime { year, month, day, hour, minute, second, nanosecond };
        if x.is_valid() {
            Some(x)
        } else {
            None
        }
    }

    /// Whether the fields name a real instant.
    pub fn is_valid(&self) -> (r: bool)
        ensures
            r == self.wf(),
    {
        calendar_date_exists(self.year, self.month, self.day) && self.hour < 24 && self.minute
            < 60 && self.second < 60 && self.nanosecond < 1_000_000_000
    }
}

/// Relies on chrono::Utc::now, read through chrono's field accessors and
/// `timestamp`: the instant now, and the whole seconds since 1970. Any value
/// chrono produces is a real instant and its sub-second part comes from the
/// system clock, below one second. chrono panics on a clock set before 1970,
/// so the seconds are never negative.
#[verifier::external_body]
pub(crate) fn utc_now() -> (r: (UtcDateTime, i64))
    ensures
        r.0.wf(),
        r.1 >= 0,
{
    let n = chrono::Utc::now();
    let fields = UtcDateTime {
        year: n.year(),
        month: n.month(),
        day: n.day(),
        hour: n.hour(),
        minute: n.minute(),
        second: n.second(),
        nanosecond: n.nanosecond(),
    };
    (fields, n.timestamp())
}

/// The storage pair of an instant: its UTC date, and its time of day cut to
/// whole milliseconds.
pub open spec fn encoded(x: UtcDateTime) -> StoredDateTime {
    StoredDateTime {
        date: CalendarDate { year: x.year, month: x.month, day: x.day },
        time: TimeOfDay {
            hour: x.hour,
            minute: x.minute,
            second: x.second,
            millisecond: x.nanosecond / 1_000_000,
        },
    }
}

/// Whether a storage pair names an instant.
pub open spec fn stored_is_valid(s: StoredDateTime) -> bool {
    &&& valid_calendar_date(s.date.year as int, s.date.month as int, s.date.day as int)
    &&& s.time.hour < 24
    &&& s.time.minute < 60
    &&& s.time.second < 60
    &&& s.time.millisecond < 1000
}

/// The UTC instant that a valid storage pair names.
pub open spec fn decoded(s: StoredDateTime) -> UtcDateTime {
    UtcDateTime {
        year: s.date.year,
        month: s.date.month,
        day: s.date.day,
        hour: s.time.hour,
        minute: s.time.minute,
        second: s.time.second,
        nanosecond: (s.time.millisecond * 1_000_000) as u32,
    }
}

/// What decoding a storage pair gives: the instant, or why there is none.
pub open spec fn decode_result(s: StoredDateTime) -> Result<UtcDateTime, DateTimeError> {
    if !valid_calendar_date(s.date.year as int, s.date.month as int, s.date.day as int) {
        Err(DateTimeError::InvalidDate)
    } else if !(s.time.hour < 24 && s.time.minute < 60 && s.time.second < 60
        && s.time.millisecond < 1000) {
        Err(DateTimeError::InvalidTime)
    } else {
        Ok(decoded(s))
    }
}

/// `x` with its sub-millisecond part dropped.
pub open spec fn truncated_to_millis(x: UtcDateTime) -> UtcDateTime {
    UtcDateTime { nanosecond: ((x.nanosecond / 1_000_000) * 1_000_000) as u32, ..x }
}

/// Splits an instant into the date and time of day that storage holds.
pub fn encode(x: &UtcDateTime) -> (r: StoredDateTime)
    requires
        x.wf(),
    ensures
        r == encoded(*x),
        stored_is_valid(r),
{
    let millisecond = x.nanosecond / 1_000_000;
    StoredDateTime {
        date: CalendarDate { year: x.year, month: x.month, day: x.day },
        time: TimeOfDay { hour: x.hour, minute: x.minute, second: x.second, millisecond },
    }
}

/// Reads a storage pair back as a UTC instant; a pair that names no instant
/// is refused, never replaced.
pub fn decode(s: &StoredDateTime) -> (r: Result<UtcDateTime, DateTimeError>)
    ensures
        r == decode_result(*s),
        r is Ok ==> r->Ok_0.wf(),
{
    if !calendar_date_exists(s.date.year, s.date.month, s.date.day) {
        return Err(DateTimeError::InvalidDate);
    }
    let t = s.time;
    if !clock_time_exists(t.hour, t.minute, t.second, t.millisecond) || t.millisecond >= 1000 {
        return Err(DateTimeError::InvalidTime);
    }
    assert(t.millisecond * 1_000_000 < 1_000_000_000) by (nonlinear_arith)
        requires
            t.millisecond < 1000,
    ;
    Ok(
        UtcDateTime {
            year: s.date.year,
            month: s.date.month,
            day: s.date.day,
            hour: t.hour,
            minute: t.minute,
            second: t.second,
            nanosecond: t.millisecond * 1_000_000,
        },
    )
}

/// Decoding what encoding gave returns the instant cut to whole
/// milliseconds, for every real instant.
pub proof fn lemma_decode_encode(x: UtcDateTime)
    requires
        x.wf(),
    ensures
        decode_result(encoded(x)) == Ok::<UtcDateTime, DateTimeError>(truncated_to_millis(x)),
        truncated_to_millis(x).wf(),
{
    let ms = x.nanosecond / 1_000_000;
    assert(ms < 1000);
    assert(ms * 1_000_000 <= x.nanosecond) by (nonlinear_arith)
        requires
            ms == x.nanosecond / 1_000_000,
    ;
}

} // verus!
