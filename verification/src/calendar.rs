//! Calendar dates, times of day and local timestamps.
//!
//! A date carries both its civil form (year, month, day) and its day number
//! in the proleptic Gregorian calendar, on which day arithmetic is plain
//! integer arithmetic. The link between the two forms comes from `chrono`.

use vstd::prelude::*;
use chrono::Datelike;
use chrono::NaiveDate;

verus! {

/// Whether `year` is a leap year of the proleptic Gregorian calendar.
pub open spec fn is_leap_year(year: int) -> bool {
    year % 4 == 0 && (year % 100 != 0 || year % 400 == 0)
}

/// How many days the month `month` of `year` has.
pub open spec fn days_in_month(year: int, month: int) -> int {
    if month == 2 {
        if is_leap_year(year) {
            29
        } else {
            28
        }
    } else if month == 4 || month == 6 || month == 9 || month == 11 {
        30
    } else {
        31
    }
}

/// Whether `year`-`month`-`day` is a date of the calendar, within the years
/// that `chrono` holds.
pub open spec fn is_calendar_date(year: int, month: int, day: int) -> bool {
    -262143 <= year <= 262142 && 1 <= month <= 12 && 1 <= day <= days_in_month(year, month)
}

/// Whether `year`-`month`-`day` is a date of the calendar.
pub fn calendar_date(year: i32, month: u32, day: u32) -> (out: bool)
    ensures
        out == is_calendar_date(year as int, month as int, day as int),
{
    if year < -262143 || year > 262142 || month < 1 || month > 12 || day < 1 {
        return false;
    }
    // 262400 is a multiple of 400 that lifts every such year above zero.
    let lifted: i32 = year + 262400;
    let leap = lifted % 4 == 0 && (lifted % 100 != 0 || lifted % 400 == 0);
    let length: u32 = if month == 2 {
        if leap {
            29
        } else {
            28
        }
    } else if month == 4 || month == 6 || month == 9 || month == 11 {
        30
    } else {
        31
    };
    day <= length
}

/// The day number of the calendar date `year`-`month`-`day` in the proleptic
/// Gregorian calendar, January 1 of year 1 being day 1.
pub uninterp spec fn civil_day_number(year: int, month: int, day: int) -> int;

/// The civil date (year, month, day) that has day number `days`; `None`
/// where `chrono` cannot hold that day.
pub uninterp spec fn day_number_civil(days: int) -> Option<(int, int, int)>;

/// Calls `chrono::NaiveDate::from_ymd_opt` and, on the date it gives,
/// `Datelike::num_days_from_ce`. Trusted: a date comes back exactly for a
/// calendar date within the years that `chrono` holds, and its day number is
/// what `civil_day_number` names for these arguments.
#[verifier::external_body]
fn day_number_of_civil(year: i32, month: u32, day: u32) -> (out: Option<i32>)
    ensures
        out is Some <==> is_calendar_date(year as int, month as int, day as int),
        out matches Some(n) ==> n as int == civil_day_number(
            year as int,
            month as int,
            day as int,
        ),
{
    match NaiveDate::from_ymd_opt(year, month, day) {
        Some(date) => Some(date.num_days_from_ce()),
        None => None,
    }
}

/// Calls `chrono::NaiveDate::from_num_days_from_ce_opt` and reads the year,
/// month and day of the date it gives. Trusted: the result is what
/// `day_number_civil` names for `days`; the date it gives is a calendar date
/// and has `days` as its day number.
#[verifier::external_body]
fn civil_of_day_number(days: i32) -> (out: Option<(i32, u32, u32)>)
    ensures
        match out {
            Some((y, m, d)) => day_number_civil(days as int) == Some((y as int, m as int, d as int))
                && is_calendar_date(y as int, m as int, d as int) && civil_day_number(
                y as int,
                m as int,
                d as int,
            ) == days as int,
            None => day_number_civil(days as int) is None,
        },
{
    match NaiveDate::from_num_days_from_ce_opt(days) {
        Some(date) => Some((date.year(), date.month(), date.day())),
        None => None,
    }
}

/// A calendar date: its civil form and its day number.
#[derive(Clone, Copy, Debug, PartialEq, Eq)]
pub struct Date {
    pub year: i32,
    pub month: u32,
    pub day: u32,
    pub day_number: i32,
}

impl Date {
    /// The civil form and the day number name the same day.
    pub open spec fn wf(self) -> bool {
        is_calendar_date(self.year as int, self.month as int, self.day as int)
            && civil_day_number(self.year as int, self.month as int, self.day as int)
            == self.day_number as int
    }

    /// The date written `year`-`month`-`day`, if the calendar has it.
    pub open spec fn of_civil(year: int, month: int, day: int) -> Option<Date> {
        if is_calendar_date(year, month, day) {
            Some(
                Date {
                    year: year as i32,
                    month: month as u32,
                    day: day as u32,
                    day_number: civil_day_number(year, month, day) as i32,
                },
            )
        } else {
            None
        }
    }

    /// The date whose day number is `n`, if the calendar reaches that far.
    pub open spec fn on_day(n: int) -> Option<Date> {
        if i32::MIN <= n <= i32::MAX {
            match day_number_civil(n) {
                Some((y, m, d)) => if i32::MIN <= y <= i32::MAX && 0 <= m <= u32::MAX && 0 <= d
                    <= u32::MAX {
                    Some(Date { year: y as i32, month: m as u32, day: d as u32, day_number: n as i32 })
                } else {
                    None
                },
                None => None,
            }
        } else {
            None
        }
    }

    /// The day of the week, counted from Monday as 0: day 1 is a Monday.
    pub open spec fn weekday(self) -> int {
        (self.day_number as int - 1) % 7
    }

    /// The date written `year`-`month`-`day`, or `None` where the calendar has none.
    pub fn from_ymd(year: i32, month: u32, day: u32) -> (out: Option<Date>)
        ensures
            out == Date::of_civil(year as int, month as int, day as int),
            out matches Some(date) ==> date.wf() && date.year == year && date.month == month
                && date.day == day,
    {
        match day_number_of_civil(year, month, day) {
            Some(n) => Some(Date { year, month, day, day_number: n }),
            None => None,
        }
    }

    /// The date `n` days after this one (before it, where `n` is negative),
    /// or `None` where the calendar does not reach that day.
    pub fn plus_days(&self, n: i32) -> (out: Option<Date>)
        ensures
            out == Date::on_day(self.day_number + n),
            out matches Some(date) ==> date.wf() && date.day_number == self.day_number + n,
    {
        let target: i64 = self.day_number as i64 + n as i64;
        if target < -2147483648 || target > 2147483647 {
            return None;
        }
        match civil_of_day_number(target as i32) {
            Some((year, month, day)) => Some(Date { year, month, day, day_number: target as i32 }),
            None => None,
        }
    }

    /// The day of the week, counted from Monday as 0.
    pub fn weekday_from_monday(&self) -> (out: u32)
        ensures
            out as int == self.weekday(),
            out < 7,
    {
        // 2147483653 is a multiple of 7 that lifts every day number above zero.
        let lifted: i64 = self.day_number as i64 - 1 + 2147483653;
        (lifted % 7) as u32
    }

    /// How many days `self` lies after `earlier` (negative where it lies before).
    pub fn days_since(&self, earlier: &Date) -> (out: i64)
        ensures
            out == self.day_number - earlier.day_number,
    {
        self.day_number as i64 - earlier.day_number as i64
    }
}

/// A time of day, to the second.
#[derive(Clone, Copy, Debug, PartialEq, Eq)]
pub struct TimeOfDay {
    pub hour: u32,
    pub minute: u32,
    pub second: u32,
}

impl TimeOfDay {
    /// The fields name a time of day.
    pub open spec fn wf(self) -> bool {
        self.hour < 24 && self.minute < 60 && self.second < 60
    }

    /// The time `hour`:`minute`:`second`, if that is a time of day.
    pub open spec fn of_hms(hour: int, minute: int, second: int) -> Option<TimeOfDay> {
        if 0 <= hour < 24 && 0 <= minute < 60 && 0 <= second < 60 {
            Some(TimeOfDay { hour: hour as u32, minute: minute as u32, second: second as u32 })
        } else {
            None
        }
    }

    /// The time `hour`:`minute`:`second`, or `None` where that is no time of day.
    pub fn from_hms(hour: u32, minute: u32, second: u32) -> (out: Option<TimeOfDay>)
        ensures
            out == TimeOfDay::of_hms(hour as int, minute as int, second as int),
            out matches Some(time) ==> time.wf(),
    {
        if hour < 24 && minute < 60 && second < 60 {
            Some(TimeOfDay { hour, minute, second })
        } else {
            None
        }
    }
}

/// A point in local time: a date and a time of day.
#[derive(Clone, Copy, Debug, PartialEq, Eq)]
pub struct LocalDateTime {
    pub date: Date,
    pub time: TimeOfDay,
}

impl LocalDateTime {
    /// Both parts are well formed.
    pub open spec fn wf(self) -> bool {
        self.date.wf() && self.time.wf()
    }

    /// Seconds from the start of day 0 to this point.
    pub open spec fn seconds(self) -> int {
        self.date.day_number as int * 86400 + self.time.hour as int * 3600 + self.time.minute as int
            * 60 + self.time.second as int
    }

    /// Seconds from the start of day 0 to this point.
    pub fn seconds_from_origin(&self) -> (out: i64)
        requires
            self.time.wf(),
        ensures
            out == self.seconds(),
    {
        self.date.day_number as i64 * 86400 + self.time.hour as i64 * 3600 + self.time.minute as i64
            * 60 + self.time.second as i64
    }
}

/// The English name of the weekday with index `w`, Monday being 0.
pub open spec fn weekday_name(w: int) -> Seq<char> {
    if w == 0 {
        "Monday"@
    } else if w == 1 {
        "Tuesday"@
    } else if w == 2 {
        "Wednesday"@
    } else if w == 3 {
        "Thursday"@
    } else if w == 4 {
        "Friday"@
    } else if w == 5 {
        "Saturday"@
    } else {
        "Sunday"@
    }
}

/// The English name of the weekday with index `w`, Monday being 0.
pub fn weekday_text(w: u32) -> (out: &'static str)
    ensures
        out@ == weekday_name(w as int),
{
    if w == 0 {
        "Monday"
    } else if w == 1 {
        "Tuesday"
    } else if w == 2 {
        "Wednesday"
    } else if w == 3 {
        "Thursday"
    } else if w == 4 {
        "Friday"
    } else if w == 5 {
        "Saturday"
    } else {
        "Sunday"
    }
}

} // verus!
