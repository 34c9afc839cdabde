//! Dates and times of day as plain numbers, and what `chrono` reads and writes of them.

use chrono::{Datelike, NaiveDate, NaiveTime, Timelike};
use vstd::prelude::*;

verus! {

/// A day of the proleptic Gregorian calendar, as written on a wall calendar.
#[derive(Clone, Copy, Debug, PartialEq, Eq, Structural)]
pub struct CivilDate {
    pub year: i32,
    pub month: u32,
    pub day: u32,
}

/// A time of day to the second, as read off a wall clock.
#[derive(Clone, Copy, Debug, PartialEq, Eq, Structural)]
pub struct ClockTime {
    pub hour: u32,
    pub minute: u32,
    pub second: u32,
}

/// A date together with a time of day. Which zone it is read in is said where it is used.
#[derive(Clone, Copy, Debug, PartialEq, Eq, Structural)]
pub struct CivilDateTime {
    pub date: CivilDate,
    pub time: ClockTime,
}

/// First year that a date can lie in: the first year that `chrono` has dates for.
pub const MIN_YEAR: i32 = -262143;

/// Last year that a date can lie in: the last year that `chrono` has dates for.
pub const MAX_YEAR: i32 = 262142;

/// Format of the date in a schedule line: day, month and year, separated by dots.
pub const DAY_MONTH_YEAR: &'static str = "%d.%m.%Y";

/// Format of a time in a schedule line: hour and minute of the 24-hour clock.
pub const HOUR_MINUTE: &'static str = "%R";

/// Format of a calendar timestamp: date and time without separators, then the zone
/// designator of UTC.
pub const COMPACT_UTC: &'static str = "%Y%m%dT%H%M%SZ";

/// Whether the year has a 29 February, by the rule of the Gregorian calendar, which is
/// taken to hold of all years.
pub open spec fn is_leap_year(year: int) -> bool {
    year % 4 == 0 && (year % 100 != 0 || year % 400 == 0)
}

/// Number of days of a month; 0 where there is no such month.
pub open spec fn days_in_month(year: int, month: int) -> int {
    if month == 2 {
        if is_leap_year(year) {
            29
        } else {
            28
        }
    } else if month == 4 || month == 6 || month == 9 || month == 11 {
        30
    } else if 1 <= month <= 12 {
        31
    } else {
        0
    }
}

/// Whether the calendar has the day `day` of month `month` of year `year`.
pub open spec fn is_date(year: int, month: int, day: int) -> bool {
    &&& MIN_YEAR <= year <= MAX_YEAR
    &&& 1 <= month <= 12
    &&& 1 <= day <= days_in_month(year, month)
}

/// Whether a clock shows `hour:minute:second`.
pub open spec fn is_time(hour: int, minute: int, second: int) -> bool {
    0 <= hour < 24 && 0 <= minute < 60 && 0 <= second < 60
}

/// The decimal digit for `n % 10`.
pub open spec fn digit(n: int) -> char {
    ((48 + n % 10) as u8) as char
}

/// `n` written with two digits, for `0 <= n < 100`.
pub open spec fn two_digits(n: int) -> Seq<char> {
    seq![digit(n / 10), digit(n)]
}

/// `n` written with four digits, for `0 <= n < 10000`.
pub open spec fn four_digits(n: int) -> Seq<char> {
    two_digits(n / 100) + two_digits(n % 100)
}

/// A date written as `DD.MM.YYYY`.
pub open spec fn written_date(day: int, month: int, year: int) -> Seq<char> {
    two_digits(day) + seq!['.'] + two_digits(month) + seq!['.'] + four_digits(year)
}

/// A time written as `HH:MM`.
pub open spec fn written_time(hour: int, minute: int) -> Seq<char> {
    two_digits(hour) + seq![':'] + two_digits(minute)
}

/// A date and time written as `YYYYMMDDTHHMMSSZ`.
pub open spec fn compact_text(at: CivilDateTime) -> Seq<char> {
    four_digits(at.date.year as int) + two_digits(at.date.month as int) + two_digits(
        at.date.day as int,
    ) + seq!['T'] + two_digits(at.time.hour as int) + two_digits(at.time.minute as int)
        + two_digits(at.time.second as int) + seq!['Z']
}

/// A written date holds digits and dots, and no space.
pub proof fn lemma_written_date_holds_no_space(day: int, month: int, year: int)
    ensures
        !written_date(day, month, year).contains(' '),
{
    let s = written_date(day, month, year);
    assert(s =~= seq![
        digit(day / 10),
        digit(day),
        '.',
        digit(month / 10),
        digit(month),
        '.',
        digit(year / 100 / 10),
        digit(year / 100),
        digit(year % 100 / 10),
        digit(year % 100),
    ]);
    assert forall|i: int| 0 <= i < s.len() implies s[i] != ' ' by {}
}

/// A written time holds digits and a colon, and no space.
pub proof fn lemma_written_time_holds_no_space(hour: int, minute: int)
    ensures
        !written_time(hour, minute).contains(' '),
{
    let s = written_time(hour, minute);
    assert(s =~= seq![digit(hour / 10), digit(hour), ':', digit(minute / 10), digit(minute)]);
    assert forall|i: int| 0 <= i < s.len() implies s[i] != ' ' by {}
}

impl CivilDate {
    /// Whether the calendar has the day.
    pub open spec fn valid(&self) -> bool {
        is_date(self.year as int, self.month as int, self.day as int)
    }

    /// Whether the calendar has the day.
    #[verifier::when_used_as_spec(valid)]
    pub fn is_valid(&self) -> (yes: bool)
        ensures
            yes == self.valid(),
    {
        let year: i32 = self.year;
        let leap = year % 4 == 0 && (year % 100 != 0 || year % 400 == 0);
        let days: u32 = if self.month == 2 {
            if leap {
                29
            } else {
                28
            }
        } else if self.month == 4 || self.month == 6 || self.month == 9 || self.month == 11 {
            30
        } else {
            31
        };
        MIN_YEAR <= year && year <= MAX_YEAR && 1 <= self.month && self.month <= 12 && 1
            <= self.day && self.day <= days
    }
}

impl ClockTime {
    /// Whether a clock shows the time.
    pub open spec fn valid(&self) -> bool {
        is_time(self.hour as int, self.minute as int, self.second as int)
    }

    /// Whether a clock shows the time.
    #[verifier::when_used_as_spec(valid)]
    pub fn is_valid(&self) -> (yes: bool)
        ensures
            yes == self.valid(),
    {
        self.hour < 24 && self.minute < 60 && self.second < 60
    }

    /// Whether `self` is earlier in the day than `other`.
    pub open spec fn before(self, other: ClockTime) -> bool {
        self.hour < other.hour || (self.hour == other.hour && (self.minute < other.minute || (
        self.minute == other.minute && self.second < other.second)))
    }
}

impl CivilDateTime {
    /// Whether the calendar has the day and a clock shows the time.
    pub open spec fn valid(&self) -> bool {
        self.date.is_valid() && self.time.is_valid()
    }

    /// Whether the calendar has the day and a clock shows the time.
    #[verifier::when_used_as_spec(valid)]
    pub fn is_valid(&self) -> (yes: bool)
        ensures
            yes == self.valid(),
    {
        self.date.is_valid() && self.time.is_valid()
    }
}

/// Why `chrono` did not read a text.
#[verifier::external_type_specification]
#[verifier::external_body]
pub struct ExParseError(chrono::ParseError);

/// The date that `chrono::NaiveDate::parse_from_str` reads out of `text` under `format`, if
/// it reads one.
pub uninterp spec fn parsed_date(text: Seq<char>, format: Seq<char>) -> Option<CivilDate>;

/// The time of day, to the second, that `chrono::NaiveTime::parse_from_str` reads out of
/// `text` under `format`, if it reads one.
pub uninterp spec fn parsed_time(text: Seq<char>, format: Seq<char>) -> Option<ClockTime>;

/// What `chrono::NaiveDateTime::format` writes for `at` under `format`.
pub uninterp spec fn formatted(at: CivilDateTime, format: Seq<char>) -> Seq<char>;

/// Calls `chrono::NaiveDate::parse_from_str` and hands the date out by year, month and day.
///
/// Trusted: the call depends on its arguments alone and gives a day that the calendar has.
/// Under `DAY_MONTH_YEAR`, a text of the exact shape `DD.MM.YYYY` is read as that day, month
/// and year, and refused where the calendar has no such day.
#[verifier::external_body]
pub(crate) fn parse_date(text: &str, format: &str) -> (parsed: Result<
    CivilDate,
    chrono::ParseError,
>)
    ensures
        parsed is Ok <==> parsed_date(text@, format@) is Some,
        parsed matches Ok(date) ==> parsed_date(text@, format@) == Some(date) && date.is_valid(),
        forall|day: int, month: int, year: int|
            format@ == DAY_MONTH_YEAR@ && 0 <= day < 100 && 0 <= month < 100 && 0 <= year < 10000
                && text@ == #[trigger] written_date(day, month, year) ==> (parsed is Ok
                <==> is_date(year, month, day)) && (parsed matches Ok(date) ==> date.year == year
                && date.month == month && date.day == day),
{
    match NaiveDate::parse_from_str(text, format) {
        Ok(date) => Ok(CivilDate { year: date.year(), month: date.month(), day: date.day() }),
        Err(error) => Err(error),
    }
}

/// Calls `chrono::NaiveTime::parse_from_str` and hands the time out by hour, minute and
/// second.
///
/// Trusted: the call depends on its arguments alone and gives a time that a clock shows.
/// Under `HOUR_MINUTE`, a text of the exact shape `HH:MM` is read as that hour and minute
/// with no seconds, and refused where a clock shows no such time.
#[verifier::external_body]
pub(crate) fn parse_time(text: &str, format: &str) -> (parsed: Result<
    ClockTime,
    chrono::ParseError,
>)
    ensures
        parsed is Ok <==> parsed_time(text@, format@) is Some,
        parsed matches Ok(time) ==> parsed_time(text@, format@) == Some(time) && time.is_valid(),
        forall|hour: int, minute: int|
            format@ == HOUR_MINUTE@ && 0 <= hour < 100 && 0 <= minute < 100 && text@
                == #[trigger] written_time(hour, minute) ==> (parsed is Ok <==> is_time(
                hour,
                minute,
                0,
            )) && (parsed matches Ok(time) ==> time.hour == hour && time.minute == minute
                && time.second == 0),
{
    match NaiveTime::parse_from_str(text, format) {
        Ok(time) => Ok(
            ClockTime { hour: time.hour(), minute: time.minute(), second: time.second() },
        ),
        Err(error) => Err(error),
    }
}

/// Calls `chrono::NaiveDateTime::format` on the date and time `at` and collects what it
/// writes.
///
/// Trusted: the text depends on the arguments alone; for a year of at most four digits it is
/// `compact_text(at)`.
#[verifier::external_body]
pub(crate) fn format_date_time(at: &CivilDateTime, format: &str) -> (text: String)
    requires
        at.is_valid(),
        format@ == COMPACT_UTC@,
    ensures
        text@ == formatted(*at, format@),
        0 <= at.date.year < 10000 ==> text@ == compact_text(*at),
{
    let date = NaiveDate::from_ymd_opt(at.date.year, at.date.month, at.date.day).unwrap();
    let time = NaiveTime::from_hms_opt(at.time.hour, at.time.minute, at.time.second).unwrap();
    date.and_time(time).format(format).to_string()
}

/// How a calendar writes the date and time `at`: as `compact_text(at)` for a year of at
/// most four digits; for other years as `chrono` writes them under `COMPACT_UTC`.
pub open spec fn stamp_text(at: CivilDateTime) -> Seq<char> {
    if 0 <= at.date.year < 10000 {
        compact_text(at)
    } else {
        formatted(at, COMPACT_UTC@)
    }
}

impl CivilDateTime {
    /// The date and time as a calendar writes them.
    pub fn stamp(&self) -> (text: String)
        requires
            self.is_valid(),
        ensures
            text@ == stamp_text(*self),
    {
        format_date_time(self, COMPACT_UTC)
    }
}

} // verus!
