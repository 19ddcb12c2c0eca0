//! Rendering a resolved timestamp as short text, by its distance from today.

use vstd::prelude::*;
use vstd::string::*;
use crate::calendar::weekday_name;
use crate::calendar::weekday_text;
use crate::calendar::Date;
use crate::calendar::LocalDateTime;
use crate::calendar::TimeOfDay;

verus! {

/// The text of one decimal digit.
pub open spec fn digit_text(d: int) -> Seq<char> {
    if d == 0 {
        "0"@
    } else if d == 1 {
        "1"@
    } else if d == 2 {
        "2"@
    } else if d == 3 {
        "3"@
    } else if d == 4 {
        "4"@
    } else if d == 5 {
        "5"@
    } else if d == 6 {
        "6"@
    } else if d == 7 {
        "7"@
    } else if d == 8 {
        "8"@
    } else {
        "9"@
    }
}

/// The decimal text of `n`, without leading zeros.
pub open spec fn decimal_text(n: int) -> Seq<char>
    decreases n,
{
    if n < 10 {
        digit_text(n)
    } else {
        decimal_text(n / 10) + digit_text(n % 10)
    }
}

/// The text of a time of day: the hour on the twelve-hour clock without a
/// leading zero, the minutes only where they are not zero, then am or pm.
pub open spec fn time_text(time: TimeOfDay) -> Seq<char> {
    let hour = if time.hour % 12 == 0 {
        12int
    } else {
        time.hour as int % 12
    };
    let half = if time.hour < 12 {
        "am"@
    } else {
        "pm"@
    };
    if time.minute == 0 {
        decimal_text(hour) + half
    } else {
        decimal_text(hour) + ":"@ + digit_text(time.minute as int / 10) + digit_text(
            time.minute as int % 10,
        ) + half
    }
}

/// The day part of a horizon text: the weekday's name up to a week away,
/// month/day beyond that.
pub open spec fn day_text(date: Date, today: Date) -> Seq<char> {
    if date.day_number - today.day_number <= 7 {
        weekday_name(date.weekday())
    } else {
        decimal_text(date.month as int) + "/"@ + decimal_text(date.day as int)
    }
}

/// The horizon text of a resolved timestamp as seen from `today`.
pub open spec fn horizon_text(resolved: LocalDateTime, today: Date, include_time: bool) -> Seq<char> {
    if include_time {
        "Back "@ + day_text(resolved.date, today) + " "@ + time_text(resolved.time) + "."@
    } else {
        "Back "@ + day_text(resolved.date, today) + "."@
    }
}

/// The text of one decimal digit.
fn digit_str(d: u32) -> (out: &'static str)
    requires
        d < 10,
    ensures
        out@ == digit_text(d as int),
{
    if d == 0 {
        "0"
    } else if d == 1 {
        "1"
    } else if d == 2 {
        "2"
    } else if d == 3 {
        "3"
    } else if d == 4 {
        "4"
    } else if d == 5 {
        "5"
    } else if d == 6 {
        "6"
    } else if d == 7 {
        "7"
    } else if d == 8 {
        "8"
    } else {
        "9"
    }
}

/// Appends the decimal text of `n` to `out`.
pub fn push_decimal(out: &mut String, n: u32)
    ensures
        final(out)@ == old(out)@ + decimal_text(n as int),
    decreases n,
{
    if n >= 10 {
        push_decimal(out, n / 10);
    }
    out.append(digit_str(n % 10));
    proof {
        if n >= 10 {
            assert(out@ =~= old(out)@ + (decimal_text(n as int / 10) + digit_text(n as int % 10)));
        }
    }
}

/// Appends the text of a time of day to `out`.
fn push_time(out: &mut String, time: &TimeOfDay)
    requires
        time.wf(),
    ensures
        final(out)@ == old(out)@ + time_text(*time),
{
    let hour: u32 = if time.hour % 12 == 0 {
        12
    } else {
        time.hour % 12
    };
    let half = if time.hour < 12 {
        "am"
    } else {
        "pm"
    };
    push_decimal(out, hour);
    if time.minute == 0 {
        out.append(half);
        assert(out@ =~= old(out)@ + time_text(*time));
    } else {
        out.append(":");
        out.append(digit_str(time.minute / 10));
        out.append(digit_str(time.minute % 10));
        out.append(half);
        assert(out@ =~= old(out)@ + time_text(*time));
    }
}

/// The text of a time of day, such as `8am` or `8:30am`.
pub fn format_time(dt: &LocalDateTime) -> (out: String)
    requires
        dt.time.wf(),
    ensures
        out@ == time_text(dt.time),
{
    let mut out = String::new();
    push_time(&mut out, &dt.time);
    assert(out@ =~= time_text(dt.time));
    out
}

/// Renders `resolved` as seen from `today`: `Back <Weekday>.` up to seven
/// days away, `Back <Month>/<Day>.` beyond, with the time of day before the
/// full stop where `include_time` is set.
pub fn format_horizon(resolved: &LocalDateTime, today: &Date, include_time: bool) -> (out: String)
    requires
        resolved.time.wf(),
    ensures
        out@ == horizon_text(*resolved, *today, include_time),
{
    let mut out = String::from_str("Back ");
    let ghost day = day_text(resolved.date, *today);
    if resolved.date.days_since(today) <= 7 {
        out.append(weekday_text(resolved.date.weekday_from_monday()));
    } else {
        push_decimal(&mut out, resolved.date.month);
        out.append("/");
        push_decimal(&mut out, resolved.date.day);
    }
    assert(out@ =~= "Back "@ + day);
    if include_time {
        out.append(" ");
        push_time(&mut out, &resolved.time);
    }
    out.append(".");
    assert(out@ =~= horizon_text(*resolved, *today, include_time));
    out
}

/// The horizon text without the time of day.
pub fn format_back_date(dt: &LocalDateTime, today: &Date) -> (out: String)
    requires
        dt.time.wf(),
    ensures
        out@ == horizon_text(*dt, *today, false),
{
    format_horizon(dt, today, false)
}

/// The horizon text with the time of day.
pub fn format_back_date_with_time(dt: &LocalDateTime, today: &Date) -> (out: String)
    requires
        dt.time.wf(),
    ensures
        out@ == horizon_text(*dt, *today, true),
{
    format_horizon(dt, today, true)
}

/// Up to seven days ahead, seven included, the day is told by its weekday;
/// from eight days on, by month and day.
pub proof fn lemma_week_boundary(date: Date, today: Date)
    ensures
        date.day_number - today.day_number <= 7 ==> day_text(date, today) == weekday_name(
            date.weekday(),
        ),
        date.day_number - today.day_number >= 8 ==> day_text(date, today) == decimal_text(
            date.month as int,
        ) + "/"@ + decimal_text(date.day as int),
{
}

} // verus!
