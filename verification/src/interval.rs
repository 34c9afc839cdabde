//! The span of time of one session, read out of one line of a page.

use crate::civil::{
    is_date, is_time, lemma_written_date_holds_no_space, lemma_written_time_holds_no_space,
    parse_date, parse_time, parsed_date, parsed_time, written_date, written_time, CivilDate,
    CivilDateTime, ClockTime, DAY_MONTH_YEAR, HOUR_MINUTE,
};
use crate::text::{after, drop_front, fields, lemma_fields_single, lemma_fields_split, split, views};
use crate::zone::{berlin_span, berlin_to_utc, ends_on, local_span, Ends};
use vstd::prelude::*;

verus! {

/// Why a schedule line was not read.
#[derive(Clone, Copy, Debug, PartialEq, Eq, Structural)]
pub enum TimespanError {
    /// The line does not split into exactly four fields.
    FieldCount,
    /// The first field is no date.
    InvalidDate,
    /// The second or the fourth field is no time of day.
    InvalidTime,
    /// The end is not later on the clock than the start.
    NonPositiveDuration,
    /// Clocks in the zone skip or repeat the start or the end.
    LocalTimeUnresolved,
}

/// What an [`Interval`] holds: its ends as read off a clock in the zone Europe/Berlin, and
/// the same two instants in UTC.
pub struct IntervalView {
    pub local: Ends,
    pub utc: Ends,
}

/// The span of time of one session: a start and an end on one day in the zone
/// Europe/Berlin, each an instant that clocks there show exactly once.
#[derive(Clone, Copy, Debug, PartialEq, Eq)]
pub struct Interval {
    local: Ends,
    utc: Ends,
}

/// What holds of every interval: both ends exist, in the zone and in UTC; both lie on one
/// day of the zone, the start earlier on its clock than the end; the UTC ends are the
/// instants of the local ends.
pub open spec fn well_formed(interval: IntervalView) -> bool {
    &&& interval.local.start.is_valid()
    &&& interval.local.end.is_valid()
    &&& interval.local.start.date == interval.local.end.date
    &&& interval.local.start.time.before(interval.local.end.time)
    &&& interval.utc.start.is_valid()
    &&& interval.utc.end.is_valid()
    &&& berlin_to_utc(interval.local.start) == Some(interval.utc.start)
    &&& berlin_to_utc(interval.local.end) == Some(interval.utc.end)
}

/// The fields of a schedule line: what follows its first four characters, split at single
/// spaces.
pub open spec fn line_fields(line: Seq<char>) -> Seq<Seq<char>> {
    fields(after(line, 4), ' ')
}

/// The interval from `start` to `end` on the day `date` in the zone Europe/Berlin. The
/// order of the two is that of the clock of the zone; the order of the two instants in UTC
/// is not looked at.
pub open spec fn resolve(date: CivilDate, start: ClockTime, end: ClockTime) -> Result<
    IntervalView,
    TimespanError,
> {
    let local = ends_on(date, start, end);
    if !start.before(end) {
        Err(TimespanError::NonPositiveDuration)
    } else {
        match (berlin_to_utc(local.start), berlin_to_utc(local.end)) {
            (Some(start), Some(end)) => Ok(IntervalView { local, utc: Ends { start, end } }),
            _ => Err(TimespanError::LocalTimeUnresolved),
        }
    }
}

/// The interval from `start` to `end` on the day `date` in the zone Europe/Berlin, where
/// the calendar has the day and a clock shows both times.
pub open spec fn interval_on(date: CivilDate, start: ClockTime, end: ClockTime) -> Result<
    IntervalView,
    TimespanError,
> {
    if !date.is_valid() {
        Err(TimespanError::InvalidDate)
    } else if !start.is_valid() || !end.is_valid() {
        Err(TimespanError::InvalidTime)
    } else {
        resolve(date, start, end)
    }
}

/// What a schedule line is read as.
pub open spec fn parse_line(line: Seq<char>) -> Result<IntervalView, TimespanError> {
    let f = line_fields(line);
    if f.len() != 4 {
        Err(TimespanError::FieldCount)
    } else {
        match parsed_date(f[0], DAY_MONTH_YEAR@) {
            None => Err(TimespanError::InvalidDate),
            Some(date) => match parsed_time(f[1], HOUR_MINUTE@) {
                None => Err(TimespanError::InvalidTime),
                Some(start) => match parsed_time(f[3], HOUR_MINUTE@) {
                    None => Err(TimespanError::InvalidTime),
                    Some(end) => resolve(date, start, end),
                },
            },
        }
    }
}

/// A schedule line of the exact shape: four characters, then `DD.MM.YYYY HH:MM - HH:MM`.
/// It is given by the numbers that it holds, which need not be those of a date that the
/// calendar has nor of times that a clock shows.
pub struct ShapedLine {
    pub day: int,
    pub month: int,
    pub year: int,
    pub start_hour: int,
    pub start_minute: int,
    pub end_hour: int,
    pub end_minute: int,
}

impl ShapedLine {
    /// Whether each number can be written with the digits that the shape has for it.
    pub open spec fn fits(self) -> bool {
        &&& 0 <= self.day < 100
        &&& 0 <= self.month < 100
        &&& 0 <= self.year < 10000
        &&& 0 <= self.start_hour < 100
        &&& 0 <= self.start_minute < 100
        &&& 0 <= self.end_hour < 100
        &&& 0 <= self.end_minute < 100
    }

    /// The line without its first four characters.
    pub open spec fn body(self) -> Seq<char> {
        written_date(self.day, self.month, self.year) + seq![' '] + written_time(
            self.start_hour,
            self.start_minute,
        ) + seq![' ', '-', ' '] + written_time(self.end_hour, self.end_minute)
    }

    /// The date that the line holds, where the calendar has it.
    pub open spec fn date(self) -> CivilDate {
        CivilDate { year: self.year as i32, month: self.month as u32, day: self.day as u32 }
    }

    /// The start that the line holds, where a clock shows it.
    pub open spec fn start(self) -> ClockTime {
        ClockTime { hour: self.start_hour as u32, minute: self.start_minute as u32, second: 0 }
    }

    /// The end that the line holds, where a clock shows it.
    pub open spec fn end(self) -> ClockTime {
        ClockTime { hour: self.end_hour as u32, minute: self.end_minute as u32, second: 0 }
    }

    /// What the line is read as.
    pub open spec fn read(self) -> Result<IntervalView, TimespanError> {
        if !is_date(self.year, self.month, self.day) {
            Err(TimespanError::InvalidDate)
        } else if !is_time(self.start_hour, self.start_minute, 0) || !is_time(
            self.end_hour,
            self.end_minute,
            0,
        ) {
            Err(TimespanError::InvalidTime)
        } else {
            resolve(self.date(), self.start(), self.end())
        }
    }
}

/// The view of what `parse_timespan` returns.
pub open spec fn interval_outcome(parsed: Result<Interval, TimespanError>) -> Result<
    IntervalView,
    TimespanError,
> {
    match parsed {
        Ok(interval) => Ok(interval@),
        Err(error) => Err(error),
    }
}

impl View for Interval {
    type V = IntervalView;

    closed spec fn view(&self) -> IntervalView {
        IntervalView { local: self.local, utc: self.utc }
    }
}

impl Interval {
    #[verifier::type_invariant]
    closed spec fn sound(self) -> bool {
        well_formed(self@)
    }

    /// The interval from `start` to `end` on the day `date` in the zone Europe/Berlin.
    ///
    /// Refused where the calendar does not have the day, where a clock does not show both
    /// times, where the start is not earlier than the end, and where clocks in the zone
    /// skip or repeat either of them.
    pub fn new(date: CivilDate, start: ClockTime, end: ClockTime) -> (made: Result<
        Interval,
        TimespanError,
    >)
        ensures
            interval_outcome(made) == interval_on(date, start, end),
    {
        if !date.is_valid() {
            return Err(TimespanError::InvalidDate);
        }
        if !start.is_valid() || !end.is_valid() {
            return Err(TimespanError::InvalidTime);
        }
        let span = match local_span(date, start, end) {
            Ok(span) => span,
            Err(_) => {
                return Err(TimespanError::NonPositiveDuration);
            },
        };
        let utc = match berlin_span(&span) {
            Ok(utc) => utc,
            Err(_) => {
                return Err(TimespanError::LocalTimeUnresolved);
            },
        };
        let local = Ends {
            start: CivilDateTime { date, time: start },
            end: CivilDateTime { date, time: end },
        };
        Ok(Interval { local, utc })
    }

    /// Start and end as read off a clock in the zone Europe/Berlin.
    pub fn local(&self) -> (ends: Ends)
        ensures
            ends == self@.local,
            well_formed(self@),
    {
        proof {
            use_type_invariant(self);
        }
        self.local
    }

    /// Start and end as dates and times in UTC.
    pub fn utc(&self) -> (ends: Ends)
        ensures
            ends == self@.utc,
            well_formed(self@),
    {
        proof {
            use_type_invariant(self);
        }
        self.utc
    }
}

/// The four fields of a line body of the exact shape.
pub proof fn lemma_fields_of_body(line: ShapedLine)
    ensures
        fields(line.body(), ' ') == seq![
            written_date(line.day, line.month, line.year),
            written_time(line.start_hour, line.start_minute),
            seq!['-'],
            written_time(line.end_hour, line.end_minute),
        ],
{
    let date = written_date(line.day, line.month, line.year);
    let start = written_time(line.start_hour, line.start_minute);
    let end = written_time(line.end_hour, line.end_minute);
    let dash = seq!['-'];
    let tail2 = dash + seq![' '] + end;
    let tail1 = start + seq![' '] + tail2;
    assert(line.body() == date + seq![' '] + tail1);
    lemma_written_date_holds_no_space(line.day, line.month, line.year);
    lemma_written_time_holds_no_space(line.start_hour, line.start_minute);
    lemma_written_time_holds_no_space(line.end_hour, line.end_minute);
    assert(!dash.contains(' ')) by {
        assert forall|i: int| 0 <= i < dash.len() implies dash[i] != ' ' by {}
    }
    lemma_fields_split(date, tail1, ' ');
    lemma_fields_split(start, tail2, ' ');
    lemma_fields_split(dash, end, ' ');
    lemma_fields_single(end, ' ');
    assert(fields(tail2, ' ') == seq![dash, end]);
    assert(fields(tail1, ' ') == seq![start, dash, end]);
}

/// Reads a schedule line such as `Mo, 21.10.2019 10:00 - 13:00`.
///
/// The first four characters are dropped unread. What follows is split at single spaces
/// into a date, a start time, a separator that is not looked at, and an end time. Both
/// times are taken on that date in the zone Europe/Berlin. A time that clocks there skip
/// or repeat is refused, and so is a session whose end is not later on the clock than its
/// start.
///
/// The first clause says what every line is read as, over what `chrono` reads out of its
/// fields. The second says it for the lines of the exact shape, by the numbers in them.
pub fn parse_timespan(date_text: String) -> (parsed: Result<Interval, TimespanError>)
    ensures
        interval_outcome(parsed) == parse_line(date_text@),
        forall|line: ShapedLine|
            line.fits() && after(date_text@, 4) == #[trigger] line.body() ==> interval_outcome(
                parsed,
            ) == line.read(),
{
    let rest = drop_front(date_text.as_str(), 4);
    let tokens = split(rest, ' ');
    if tokens.len() != 4 {
        proof {
            assert forall|line: ShapedLine|
                after(date_text@, 4) == #[trigger] line.body() implies false by {
                lemma_fields_of_body(line);
            }
        }
        return Err(TimespanError::FieldCount);
    }
    let date_read = parse_date(tokens[0].as_str(), DAY_MONTH_YEAR);
    let start_read = parse_time(tokens[1].as_str(), HOUR_MINUTE);
    let end_read = parse_time(tokens[3].as_str(), HOUR_MINUTE);
    proof {
        let f = line_fields(date_text@);
        assert(f == views(tokens@));
        assert(f[0] == tokens@[0]@ && f[1] == tokens@[1]@ && f[3] == tokens@[3]@);
        assert forall|line: ShapedLine|
            line.fits() && after(date_text@, 4) == #[trigger] line.body() implies parse_line(
            date_text@,
        ) == line.read() by {
            lemma_fields_of_body(line);
            assert(f[0] == written_date(line.day, line.month, line.year));
            assert(f[1] == written_time(line.start_hour, line.start_minute));
            assert(f[3] == written_time(line.end_hour, line.end_minute));
        }
    }
    let date = match date_read {
        Ok(date) => date,
        Err(_) => {
            return Err(TimespanError::InvalidDate);
        },
    };
    let start = match start_read {
        Ok(time) => time,
        Err(_) => {
            return Err(TimespanError::InvalidTime);
        },
    };
    let end = match end_read {
        Ok(time) => time,
        Err(_) => {
            return Err(TimespanError::InvalidTime);
        },
    };
    Interval::new(date, start, end)
}

} // verus!
