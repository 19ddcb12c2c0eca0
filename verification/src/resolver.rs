//! Turning loose return-date and return-time tokens into a local timestamp.

use vstd::prelude::*;
use vstd::string::*;
use crate::calendar::Date;
use crate::calendar::LocalDateTime;
use crate::calendar::TimeOfDay;
use crate::text::ends_with;
use crate::text::find_char;
use crate::text::has_suffix;
use crate::text::index_of;
use crate::text::lower;
use crate::text::parse_unsigned;
use crate::text::read_unsigned;
use crate::text::slice_chars;
use crate::text::spells;
use crate::text::to_chars;
use crate::text::to_lower;
use crate::text::trim;
use crate::text::trimmed;

verus! {

/// Why a token could not be resolved.
#[derive(Debug, PartialEq, Eq)]
pub enum ParseError {
    /// The date token, kept as it was given, names no date.
    Date(String),
    /// The time token, kept as it was given, names no time of day.
    Time(String),
    /// The resolved day lies beyond the last day the calendar holds.
    Range,
}

/// A parse error with its token as a sequence of characters.
pub enum Fault {
    Date(Seq<char>),
    Time(Seq<char>),
    Range,
}

impl View for ParseError {
    type V = Fault;

    open spec fn view(&self) -> Fault {
        match self {
            ParseError::Date(input) => Fault::Date(input@),
            ParseError::Time(input) => Fault::Time(input@),
            ParseError::Range => Fault::Range,
        }
    }
}

/// The text shown for a date token that names no date.
pub open spec fn date_error_text(input: Seq<char>) -> Seq<char> {
    "Could not parse date: "@ + input + "\nExamples: friday, 3/10, 3-10-2026, tomorrow"@
}

/// The text shown for a time token that names no time of day.
pub open spec fn time_error_text(input: Seq<char>) -> Seq<char> {
    "Invalid time: "@ + input
}

impl ParseError {
    /// What the message says, for each kind of error.
    pub open spec fn text(self) -> Seq<char> {
        match self {
            ParseError::Date(input) => date_error_text(input@),
            ParseError::Time(input) => time_error_text(input@),
            ParseError::Range => "Return time is beyond the end of the calendar"@,
        }
    }

    /// The message to show: it names the offending input and, for a date,
    /// gives examples of what is understood.
    pub fn message(&self) -> (out: String)
        ensures
            out@ == self.text(),
    {
        match self {
            ParseError::Date(input) => {
                let mut out = String::from_str("Could not parse date: ");
                out.append(input.as_str());
                out.append("\nExamples: friday, 3/10, 3-10-2026, tomorrow");
                out
            },
            ParseError::Time(input) => {
                let mut out = String::from_str("Invalid time: ");
                out.append(input.as_str());
                out
            },
            ParseError::Range => String::from_str("Return time is beyond the end of the calendar"),
        }
    }
}

/// The hour at which a return date without a time token begins.
pub const DEFAULT_BACK_HOUR: u32 = 7;

/// The time of day used where no time token is given: 07:00:00.
pub open spec fn default_time() -> TimeOfDay {
    TimeOfDay { hour: 7, minute: 0, second: 0 }
}

/// Splits a trimmed, lower-cased time token into its number part and its
/// marker: `Some(true)` for pm, `Some(false)` for am, `None` without one.
pub open spec fn marker_split(s: Seq<char>) -> (Seq<char>, Option<bool>) {
    if ends_with(s, "pm"@) {
        (trim(s.subrange(0, s.len() - 2)), Some(true))
    } else if ends_with(s, "p.m."@) {
        (trim(s.subrange(0, s.len() - 4)), Some(true))
    } else if ends_with(s, "am"@) {
        (trim(s.subrange(0, s.len() - 2)), Some(false))
    } else if ends_with(s, "a.m."@) {
        (trim(s.subrange(0, s.len() - 4)), Some(false))
    } else {
        (s, None)
    }
}

/// The hour and minute that a number part writes: `H`, or `H:MM` split at
/// its first colon.
pub open spec fn clock_fields(num: Seq<char>) -> Option<(int, int)> {
    let i = index_of(num, ':', 0);
    if i < num.len() {
        match (
            parse_unsigned(num.subrange(0, i), u32::MAX as int),
            parse_unsigned(num.subrange(i + 1, num.len() as int), u32::MAX as int),
        ) {
            (Some(h), Some(m)) => Some((h, m)),
            _ => None,
        }
    } else {
        match parse_unsigned(num, u32::MAX as int) {
            Some(h) => Some((h, 0int)),
            None => None,
        }
    }
}

/// The twelve-hour convention: pm lifts an hour below 12 by 12, am turns 12
/// into 0, and an hour without a marker stays.
pub open spec fn adjust_hour(hour: int, marker: Option<bool>) -> int {
    match marker {
        Some(true) => if hour < 12 {
            hour + 12
        } else {
            hour
        },
        Some(false) => if hour == 12 {
            0
        } else {
            hour
        },
        None => hour,
    }
}

/// The time of day that a time token names, if it names one.
pub open spec fn time_of_token(token: Seq<char>) -> Option<TimeOfDay> {
    let parts = marker_split(trim(lower(token)));
    match clock_fields(parts.0) {
        Some((h, m)) => TimeOfDay::of_hms(adjust_hour(h, parts.1), m, 0),
        None => None,
    }
}

/// The time of day for an optional time token: the default without one.
pub open spec fn time_of_input(input: Option<Seq<char>>) -> Option<TimeOfDay> {
    match input {
        Some(token) => time_of_token(token),
        None => Some(default_time()),
    }
}

/// Reads the hour and minute of a number part.
fn read_clock(num: &Vec<char>) -> (out: Option<(u32, u32)>)
    ensures
        match out {
            Some((h, m)) => clock_fields(num@) == Some((h as int, m as int)),
            None => clock_fields(num@) is None,
        },
{
    let i = find_char(num, ':', 0);
    if i < num.len() {
        let left = slice_chars(num, 0, i);
        let right = slice_chars(num, i + 1, num.len());
        match read_unsigned(&left, u32::MAX) {
            Some(h) => match read_unsigned(&right, u32::MAX) {
                Some(m) => Some((h, m)),
                None => None,
            },
            None => None,
        }
    } else {
        match read_unsigned(num, u32::MAX) {
            Some(h) => Some((h, 0)),
            None => None,
        }
    }
}

/// Reads a time token; without one, gives the default hour. The token is
/// lower-cased and trimmed, may end in am, pm, a.m. or p.m., and is otherwise
/// `H` or `H:MM`. Fails with the token where it names no time of day.
pub fn parse_time(input: Option<&str>) -> (out: Result<TimeOfDay, ParseError>)
    ensures
        match input {
            None => out == Ok::<TimeOfDay, ParseError>(default_time()),
            Some(token) => match time_of_token(token@) {
                Some(time) => out == Ok::<TimeOfDay, ParseError>(time),
                None => out matches Err(e) && e@ == Fault::Time(token@),
            },
        },
        out matches Ok(time) ==> time.wf() && time.second == 0,
{
    let token = match input {
        Some(token) => token,
        None => {
            return Ok(TimeOfDay { hour: DEFAULT_BACK_HOUR, minute: 0, second: 0 });
        },
    };
    let chars = to_chars(token);
    let low = to_lower(&chars);
    let s = trimmed(&low);
    let n: usize = s.len();
    proof {
        reveal_strlit("pm");
        reveal_strlit("p.m.");
        reveal_strlit("am");
        reveal_strlit("a.m.");
    }
    let mut marker: Option<bool> = None;
    let mut cut: usize = n;
    if has_suffix(&s, "pm") {
        marker = Some(true);
        cut = n - 2;
    } else if has_suffix(&s, "p.m.") {
        marker = Some(true);
        cut = n - 4;
    } else if has_suffix(&s, "am") {
        marker = Some(false);
        cut = n - 2;
    } else if has_suffix(&s, "a.m.") {
        marker = Some(false);
        cut = n - 4;
    }
    let num = match marker {
        Some(_) => trimmed(&slice_chars(&s, 0, cut)),
        None => s,
    };
    assert(num@ == marker_split(trim(lower(token@))).0);
    assert(marker == marker_split(trim(lower(token@))).1);
    match read_clock(&num) {
        Some((h, m)) => {
            let hour: u32 = match marker {
                Some(true) => if h < 12 {
                    h + 12
                } else {
                    h
                },
                Some(false) => if h == 12 {
                    0
                } else {
                    h
                },
                None => h,
            };
            match TimeOfDay::from_hms(hour, m, 0) {
                Some(time) => Ok(time),
                None => Err(ParseError::Time(String::from_str(token))),
            }
        },
        None => Err(ParseError::Time(String::from_str(token))),
    }
}

/// Whether `c` parts the fields of a numeric date.
pub open spec fn is_sep(c: char) -> bool {
    c == '/' || c == '-'
}

/// The index of the first separator in `s` at or after `from`, or `s.len()`.
pub open spec fn next_sep(s: Seq<char>, from: int) -> int
    decreases s.len() - from,
{
    if from < 0 || from >= s.len() {
        s.len() as int
    } else if is_sep(s[from]) {
        from
    } else {
        next_sep(s, from + 1)
    }
}

/// The index of the first separator in `v` at or after `from`, or the length of `v`.
fn find_sep(v: &Vec<char>, from: usize) -> (at: usize)
    ensures
        at == next_sep(v@, from as int),
        at <= v@.len(),
        from <= v@.len() ==> from <= at,
{
    let n: usize = v.len();
    if from >= n {
        return n;
    }
    let mut i: usize = from;
    while i < n && v[i] != '/' && v[i] != '-'
        invariant
            n == v@.len(),
            from <= i <= n,
            next_sep(v@, from as int) == next_sep(v@, i as int),
        decreases n - i,
    {
        i += 1;
    }
    i
}

/// The date of a month/day token: in today's year, or in the next where
/// that day of this year is already past.
pub open spec fn two_part_date(month: Option<int>, day: Option<int>, today: Date) -> Option<Date> {
    match (month, day) {
        (Some(m), Some(d)) => match Date::of_civil(today.year as int, m, d) {
            Some(same_year) => if same_year.day_number < today.day_number {
                Date::of_civil(today.year + 1, m, d)
            } else {
                Some(same_year)
            },
            None => None,
        },
        _ => None,
    }
}

/// The year that a written year stands for: below 100 it counts from 2000.
pub open spec fn full_year(written: int) -> int {
    if written < 100 {
        written + 2000
    } else {
        written
    }
}

/// The date of a month/day/year token, taken as written.
pub open spec fn three_part_date(month: Option<int>, day: Option<int>, year: Option<int>) -> Option<
    Date,
> {
    match (month, day, year) {
        (Some(m), Some(d), Some(y)) => Date::of_civil(full_year(y), m, d),
        _ => None,
    }
}

/// The date that a numeric token names: two or three numbers parted by `/` or `-`.
pub open spec fn numeric_date(token: Seq<char>, today: Date) -> Option<Date> {
    let n = token.len() as int;
    let i = next_sep(token, 0);
    let j = next_sep(token, i + 1);
    let k = next_sep(token, j + 1);
    if i >= n {
        None
    } else if j >= n {
        two_part_date(
            parse_unsigned(token.subrange(0, i), u32::MAX as int),
            parse_unsigned(token.subrange(i + 1, n), u32::MAX as int),
            today,
        )
    } else if k >= n {
        three_part_date(
            parse_unsigned(token.subrange(0, i), u32::MAX as int),
            parse_unsigned(token.subrange(i + 1, j), u32::MAX as int),
            parse_unsigned(token.subrange(j + 1, n), i32::MAX as int),
        )
    } else {
        None
    }
}

/// Reads a numeric date token: `M/D` or `M/D/Y`, with `/` or `-` between.
pub fn parse_date_with_separators(input: &str, today: &Date) -> (out: Option<Date>)
    ensures
        out == numeric_date(input@, *today),
        out matches Some(date) ==> date.wf(),
{
    let v = to_chars(input);
    let n: usize = v.len();
    let i = find_sep(&v, 0);
    if i >= n {
        return None;
    }
    let j = find_sep(&v, i + 1);
    let first = slice_chars(&v, 0, i);
    if j >= n {
        let second = slice_chars(&v, i + 1, n);
        let month = match read_unsigned(&first, u32::MAX) {
            Some(m) => m,
            None => {
                return None;
            },
        };
        let day = match read_unsigned(&second, u32::MAX) {
            Some(d) => d,
            None => {
                return None;
            },
        };
        match Date::from_ymd(today.year, month, day) {
            Some(same_year) => {
                if same_year.day_number < today.day_number {
                    if today.year == i32::MAX {
                        None
                    } else {
                        Date::from_ymd(today.year + 1, month, day)
                    }
                } else {
                    Some(same_year)
                }
            },
            None => None,
        }
    } else {
        let k = find_sep(&v, j + 1);
        if k < n {
            return None;
        }
        let second = slice_chars(&v, i + 1, j);
        let third = slice_chars(&v, j + 1, n);
        let month = match read_unsigned(&first, u32::MAX) {
            Some(m) => m,
            None => {
                return None;
            },
        };
        let day = match read_unsigned(&second, u32::MAX) {
            Some(d) => d,
            None => {
                return None;
            },
        };
        let written = match read_unsigned(&third, 2147483647) {
            Some(y) => y,
            None => {
                return None;
            },
        };
        let year: i32 = if written < 100 {
            written as i32 + 2000
        } else {
            written as i32
        };
        Date::from_ymd(year, month, day)
    }
}

/// The weekday that a lower-cased word names, Monday being 0.
pub open spec fn weekday_of_word(word: Seq<char>) -> Option<int> {
    if word == "monday"@ || word == "mon"@ {
        Some(0int)
    } else if word == "tuesday"@ || word == "tue"@ || word == "tues"@ {
        Some(1int)
    } else if word == "wednesday"@ || word == "wed"@ {
        Some(2int)
    } else if word == "thursday"@ || word == "thu"@ || word == "thurs"@ {
        Some(3int)
    } else if word == "friday"@ || word == "fri"@ {
        Some(4int)
    } else if word == "saturday"@ || word == "sat"@ {
        Some(5int)
    } else if word == "sunday"@ || word == "sun"@ {
        Some(6int)
    } else {
        None
    }
}

/// The weekday that a lower-cased word names, Monday being 0.
pub fn weekday_word(word: &Vec<char>) -> (out: Option<u32>)
    ensures
        match out {
            Some(w) => weekday_of_word(word@) == Some(w as int) && w < 7,
            None => weekday_of_word(word@) is None,
        },
{
    if spells(word, "monday") || spells(word, "mon") {
        Some(0)
    } else if spells(word, "tuesday") || spells(word, "tue") || spells(word, "tues") {
        Some(1)
    } else if spells(word, "wednesday") || spells(word, "wed") {
        Some(2)
    } else if spells(word, "thursday") || spells(word, "thu") || spells(word, "thurs") {
        Some(3)
    } else if spells(word, "friday") || spells(word, "fri") {
        Some(4)
    } else if spells(word, "saturday") || spells(word, "sat") {
        Some(5)
    } else if spells(word, "sunday") || spells(word, "sun") {
        Some(6)
    } else {
        None
    }
}

/// How many days lie between a day with weekday `from` and the next day
/// with weekday `target` strictly after it.
pub open spec fn days_ahead(from: int, target: int) -> int {
    if target > from {
        target - from
    } else {
        7 - from + target
    }
}

/// The date that a date token names, seen from `today`: the next such
/// weekday, tomorrow, or a numeric date.
pub open spec fn date_of_token(token: Seq<char>, today: Date) -> Option<Date> {
    let word = lower(token);
    match weekday_of_word(word) {
        Some(target) => Date::on_day(today.day_number + days_ahead(today.weekday(), target)),
        None => if word == "tomorrow"@ {
            Date::on_day(today.day_number + 1)
        } else {
            numeric_date(token, today)
        },
    }
}

/// Reads a date token as seen from `today`.
pub fn resolve_date(token: &str, today: &Date) -> (out: Option<Date>)
    ensures
        out == date_of_token(token@, *today),
        out matches Some(date) ==> date.wf(),
{
    let chars = to_chars(token);
    let word = to_lower(&chars);
    match weekday_word(&word) {
        Some(target) => {
            let from = today.weekday_from_monday();
            let delta: u32 = if target > from {
                target - from
            } else {
                7 - from + target
            };
            today.plus_days(delta as i32)
        },
        None => {
            if spells(&word, "tomorrow") {
                today.plus_days(1)
            } else {
                parse_date_with_separators(token, today)
            }
        },
    }
}

/// The timestamp that a date token and an optional time token name: a date
/// token that names no date fails first, then a time token that names no time.
pub open spec fn return_of_tokens(date: Seq<char>, time: Option<Seq<char>>, today: Date) -> Result<
    LocalDateTime,
    Fault,
> {
    match date_of_token(date, today) {
        None => Err(Fault::Date(date)),
        Some(d) => match time_of_input(time) {
            None => Err(Fault::Time(time.unwrap())),
            Some(t) => Ok(LocalDateTime { date: d, time: t }),
        },
    }
}

/// The view of an optional token.
pub open spec fn input_view(input: Option<&str>) -> Option<Seq<char>> {
    match input {
        Some(token) => Some(token@),
        None => None,
    }
}

/// Resolves a return date, with an optional return time, as seen from `today`.
pub fn parse_back_date(date_str: &str, time_str: Option<&str>, today: &Date) -> (out: Result<
    LocalDateTime,
    ParseError,
>)
    ensures
        match return_of_tokens(date_str@, input_view(time_str), *today) {
            Ok(when) => out == Ok::<LocalDateTime, ParseError>(when),
            Err(fault) => out matches Err(e) && e@ == fault,
        },
        out matches Ok(when) ==> when.time.wf() && when.date.wf(),
{
    let date = match resolve_date(date_str, today) {
        Some(date) => date,
        None => {
            return Err(ParseError::Date(String::from_str(date_str)));
        },
    };
    match parse_time(time_str) {
        Ok(time) => Ok(LocalDateTime { date, time }),
        Err(e) => Err(e),
    }
}

/// Minutes from `minute` up to the next quarter hour, a quarter hour itself
/// counting as a full quarter away, and one hour more.
pub open spec fn lunch_minutes(minute: int) -> int {
    (minute / 15 + 1) * 15 - minute + 60
}

/// The point `minutes` minutes after `now`, where that is today or tomorrow.
pub open spec fn after_minutes(now: LocalDateTime, minutes: int) -> Option<LocalDateTime> {
    let total = now.time.hour * 60 + now.time.minute + minutes;
    let date = if total < 1440 {
        Some(now.date)
    } else {
        Date::on_day(now.date.day_number + 1)
    };
    match date {
        Some(date) => Some(
            LocalDateTime {
                date,
                time: TimeOfDay {
                    hour: ((total % 1440) / 60) as u32,
                    minute: (total % 60) as u32,
                    second: now.time.second,
                },
            },
        ),
        None => None,
    }
}

/// The return from lunch: with a time token, that time today; without
/// one, the next quarter hour after `now` and one hour more.
pub open spec fn lunch_return(input: Option<Seq<char>>, now: LocalDateTime) -> Result<
    LocalDateTime,
    Fault,
> {
    match input {
        Some(token) => match time_of_token(token) {
            Some(time) => Ok(LocalDateTime { date: now.date, time }),
            None => Err(Fault::Time(token)),
        },
        None => match after_minutes(now, lunch_minutes(now.time.minute as int)) {
            Some(back) => Ok(back),
            None => Err(Fault::Range),
        },
    }
}

/// Resolves the return from lunch. With a time token: that time, today.
/// Without one: the next quarter hour after `now`, plus one hour.
pub fn parse_lunch_back_time(input: Option<&str>, now: &LocalDateTime) -> (out: Result<
    LocalDateTime,
    ParseError,
>)
    requires
        now.time.wf(),
    ensures
        match lunch_return(input_view(input), *now) {
            Ok(when) => out == Ok::<LocalDateTime, ParseError>(when),
            Err(fault) => out matches Err(e) && e@ == fault,
        },
        out matches Ok(when) ==> when.time.wf() && (now.date.wf() ==> when.date.wf()),
{
    match input {
        Some(token) => match parse_time(Some(token)) {
            Ok(time) => Ok(LocalDateTime { date: now.date, time }),
            Err(e) => Err(e),
        },
        None => {
            let minute: u32 = now.time.minute;
            let next_quarter: u32 = (minute / 15 + 1) * 15;
            let wait: u32 = next_quarter - minute + 60;
            let total: u32 = now.time.hour * 60 + minute + wait;
            let days: u32 = total / 1440;
            let time = TimeOfDay {
                hour: (total % 1440) / 60,
                minute: total % 60,
                second: now.time.second,
            };
            if days == 0 {
                Ok(LocalDateTime { date: now.date, time })
            } else {
                match now.date.plus_days(days as i32) {
                    Some(date) => Ok(LocalDateTime { date, time }),
                    None => Err(ParseError::Range),
                }
            }
        },
    }
}

/// A weekday word resolves to the next day of that weekday strictly after
/// today: at least one and at most seven days ahead, and on the weekday asked for.
pub proof fn lemma_weekday_is_next(token: Seq<char>, today: Date)
    requires
        weekday_of_word(lower(token)) is Some,
        date_of_token(token, today) is Some,
    ensures
        1 <= date_of_token(token, today).unwrap().day_number - today.day_number <= 7,
        date_of_token(token, today).unwrap().weekday() == weekday_of_word(lower(token)).unwrap(),
{
    let target = weekday_of_word(lower(token)).unwrap();
    assert(0 <= target < 7);
    assert(0 <= today.weekday() < 7);
}

/// `tomorrow`, in any case of letters, resolves to the day after today,
/// whatever the time token says.
pub proof fn lemma_tomorrow_is_next_day(token: Seq<char>, time: Option<Seq<char>>, today: Date)
    requires
        lower(token) == "tomorrow"@,
        return_of_tokens(token, time, today) is Ok,
    ensures
        return_of_tokens(token, time, today) matches Ok(when) && when.date.day_number
            == today.day_number + 1,
        date_of_token(token, today) == Date::on_day(today.day_number + 1),
{
    reveal_strlit("tomorrow");
    reveal_strlit("monday");
    reveal_strlit("mon");
    reveal_strlit("tuesday");
    reveal_strlit("tue");
    reveal_strlit("tues");
    reveal_strlit("wednesday");
    reveal_strlit("wed");
    reveal_strlit("thursday");
    reveal_strlit("thu");
    reveal_strlit("thurs");
    reveal_strlit("friday");
    reveal_strlit("fri");
    reveal_strlit("saturday");
    reveal_strlit("sat");
    reveal_strlit("sunday");
    reveal_strlit("sun");
    let word = lower(token);
    assert(word.len() == 8 && word[1] == 'o');
    assert("monday"@.len() == 6 && "mon"@.len() == 3);
    assert("tuesday"@.len() == 7 && "tue"@.len() == 3 && "tues"@.len() == 4);
    assert("wednesday"@.len() == 9 && "wed"@.len() == 3);
    assert("thursday"@[1] == 'h' && "thu"@.len() == 3 && "thurs"@.len() == 5);
    assert("friday"@.len() == 6 && "fri"@.len() == 3);
    assert("saturday"@[1] == 'a' && "sat"@.len() == 3);
    assert("sunday"@.len() == 6 && "sun"@.len() == 3);
    assert(weekday_of_word(word) is None);
}

/// A month/day token resolves into today's year, unless that day of this
/// year lies before today: then into the next year.
pub proof fn lemma_two_parts_roll_forward(token: Seq<char>, today: Date)
    requires
        next_sep(token, 0) < token.len(),
        next_sep(token, next_sep(token, 0) + 1) >= token.len(),
        numeric_date(token, today) is Some,
    ensures
        ({
            let i = next_sep(token, 0);
            let month = parse_unsigned(token.subrange(0, i), u32::MAX as int);
            let day = parse_unsigned(token.subrange(i + 1, token.len() as int), u32::MAX as int);
            let resolved = numeric_date(token, today).unwrap();
            &&& month is Some
            &&& day is Some
            &&& resolved.month == month.unwrap()
            &&& resolved.day == day.unwrap()
            &&& Date::of_civil(today.year as int, month.unwrap(), day.unwrap()) matches Some(same_year)
            &&& same_year.day_number < today.day_number ==> resolved.year == today.year + 1
            &&& same_year.day_number >= today.day_number ==> resolved.year == today.year
        }),
{
}

/// A month/day/year token is taken as written, whatever today is: a year
/// below 100 counts from 2000, and the date never rolls forward.
pub proof fn lemma_three_parts_as_written(token: Seq<char>, today: Date, other_day: Date)
    requires
        next_sep(token, 0) < token.len(),
        next_sep(token, next_sep(token, 0) + 1) < token.len(),
        numeric_date(token, today) is Some,
    ensures
        numeric_date(token, other_day) == numeric_date(token, today),
        ({
            let j = next_sep(token, next_sep(token, 0) + 1);
            let written = parse_unsigned(token.subrange(j + 1, token.len() as int), i32::MAX as int);
            let resolved = numeric_date(token, today).unwrap();
            &&& written is Some
            &&& written.unwrap() < 100 ==> resolved.year == 2000 + written.unwrap()
            &&& written.unwrap() >= 100 ==> resolved.year == written.unwrap()
        }),
{
}

/// The wait for the return from lunch ends on a quarter hour, lasts more
/// than an hour and at most an hour and a quarter: a minute that is itself
/// a quarter hour waits for the next one.
pub proof fn lemma_lunch_on_next_quarter(minute: int)
    requires
        0 <= minute < 60,
    ensures
        60 < lunch_minutes(minute) <= 75,
        (minute + lunch_minutes(minute)) % 15 == 0,
{
}

} // verus!
