//! Calendar dates and clock times as plain values.
//!
//! Date-bearing filters carry a calendar date (and, for the modified-since
//! filter, a clock time). The library models them as plain year/month/day and
//! hour/minute/second values. `Date::from_ymd_opt` and `Time::from_hms_opt`
//! are the validating constructors: they return `Some` exactly on a real
//! calendar date (proleptic Gregorian, years 0 through 9999) or a real clock
//! time. Rendering follows the `YYYY-MM-DD` and `HH:MM:SS` forms.

use vstd::prelude::*;

verus! {

use crate::render::{pad2, pad4, pad2_str, pad4_str};
use vstd::string::StringExecFns;

/// A year is a leap year if divisible by 4 but not by 100, or divisible
/// by 400.
pub open spec fn is_leap_year(y: int) -> bool {
    (y % 4 == 0 && y % 100 != 0) || y % 400 == 0
}

/// The number of days in month `m` of year `y`.
pub open spec fn days_in_month(y: int, m: int) -> int {
    if m == 2 {
        if is_leap_year(y) {
            29
        } else {
            28
        }
    } else if m == 4 || m == 6 || m == 9 || m == 11 {
        30
    } else {
        31
    }
}

/// A real calendar date with a four-digit year.
pub open spec fn valid_ymd(y: int, m: int, d: int) -> bool {
    &&& 0 <= y <= 9999
    &&& 1 <= m <= 12
    &&& 1 <= d <= days_in_month(y, m)
}

/// A real clock time (no leap seconds).
pub open spec fn valid_hms(h: int, m: int, s: int) -> bool {
    0 <= h < 24 && 0 <= m < 60 && 0 <= s < 60
}

/// A calendar date. Values made by [`Date::from_ymd_opt`] are real calendar
/// dates; the rendering is defined for every field value regardless.
#[derive(Clone, Copy, Debug, PartialEq, Eq, Structural)]
pub struct Date {
    pub year: u16,
    pub month: u8,
    pub day: u8,
}

/// A clock time. Values made by [`Time::from_hms_opt`] are real clock times.
#[derive(Clone, Copy, Debug, PartialEq, Eq, Structural)]
pub struct Time {
    pub hour: u8,
    pub minute: u8,
    pub second: u8,
}

/// A calendar date paired with a clock time.
#[derive(Clone, Copy, Debug, PartialEq, Eq, Structural)]
pub struct DateTime {
    pub date: Date,
    pub time: Time,
}

/// The `YYYY-MM-DD` rendering of `d`.
pub open spec fn date_str(d: Date) -> Seq<char> {
    pad4(d.year as nat) + seq!['-'] + pad2(d.month as nat) + seq!['-'] + pad2(d.day as nat)
}

/// The `HH:MM:SS` rendering of `t`.
pub open spec fn time_str(t: Time) -> Seq<char> {
    pad2(t.hour as nat) + seq![':'] + pad2(t.minute as nat) + seq![':'] + pad2(t.second as nat)
}

impl Date {
    /// The date with the given year, month and day, or `None` if the three do
    /// not name a real calendar date with a four-digit year.
    pub fn from_ymd_opt(year: i32, month: u32, day: u32) -> (r: Option<Date>)
        ensures
            r is Some <==> valid_ymd(year as int, month as int, day as int),
            r matches Some(d) ==> d.year == year && d.month == month && d.day == day,
    {
        if year < 0 || year > 9999 || month < 1 || month > 12 {
            return None;
        }
        let leap = (year % 4 == 0 && year % 100 != 0) || year % 400 == 0;
        let max_day: u32 = if month == 2 {
            if leap {
                29
            } else {
                28
            }
        } else if month == 4 || month == 6 || month == 9 || month == 11 {
            30
        } else {
            31
        };
        if day < 1 || day > max_day {
            return None;
        }
        Some(Date { year: year as u16, month: month as u8, day: day as u8 })
    }
}

impl Time {
    /// The time with the given hour, minute and second, or `None` if one of
    /// them is out of range.
    pub fn from_hms_opt(hour: u32, minute: u32, second: u32) -> (r: Option<Time>)
        ensures
            r is Some <==> valid_hms(hour as int, minute as int, second as int),
            r matches Some(t) ==> t.hour == hour && t.minute == minute && t.second == second,
    {
        if hour < 24 && minute < 60 && second < 60 {
            Some(Time { hour: hour as u8, minute: minute as u8, second: second as u8 })
        } else {
            None
        }
    }
}

impl DateTime {
    /// Pair a date with a time.
    pub fn new(date: Date, time: Time) -> (r: DateTime)
        ensures
            r.date == date,
            r.time == time,
    {
        DateTime { date, time }
    }
}

/// Render `d` as `YYYY-MM-DD`.
pub fn render_date(d: &Date) -> (s: String)
    ensures
        s@ == date_str(*d),
{
    let mut s = pad4_str(d.year as u64);
    s.append("-");
    s.append(pad2_str(d.month as u64).as_str());
    s.append("-");
    s.append(pad2_str(d.day as u64).as_str());
    proof {
        reveal_strlit("-");
        assert(s@ =~= date_str(*d));
    }
    s
}

/// Render `t` as `HH:MM:SS`.
pub fn render_time(t: &Time) -> (s: String)
    ensures
        s@ == time_str(*t),
{
    let mut s = pad2_str(t.hour as u64);
    s.append(":");
    s.append(pad2_str(t.minute as u64).as_str());
    s.append(":");
    s.append(pad2_str(t.second as u64).as_str());
    proof {
        reveal_strlit(":");
        assert(s@ =~= time_str(*t));
    }
    s
}

} // verus!
