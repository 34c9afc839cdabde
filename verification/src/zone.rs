//! Wall-clock time in the zone Europe/Berlin, resolved to UTC by `timespan` and `chrono-tz`.

use crate::civil::{CivilDate, CivilDateTime, ClockTime};
use chrono::{Datelike, NaiveDate, Timelike};
use chrono_tz::Europe::Berlin;
use timespan::{DateTimeSpan, NaiveDateTimeSpan};
use vstd::prelude::*;

verus! {

/// Why `timespan` did not make a span.
#[verifier::external_type_specification]
#[verifier::external_body]
pub struct ExSpanError(timespan::Error);

/// A date and time without a zone, as `chrono` holds it.
#[verifier::external_type_specification]
#[verifier::external_body]
pub struct ExNaiveDateTime(chrono::NaiveDateTime);

/// A span of time, as `timespan` holds it.
#[verifier::external_type_specification]
#[verifier::external_body]
#[verifier::reject_recursive_types(T)]
pub struct ExSpan<T>(timespan::Span<T>);

/// The two ends of a span of time, as dates and times read in one zone.
#[derive(Clone, Copy, Debug, PartialEq, Eq, Structural)]
pub struct Ends {
    pub start: CivilDateTime,
    pub end: CivilDateTime,
}

/// The span of one day from `start` to `end`.
pub open spec fn ends_on(date: CivilDate, start: ClockTime, end: ClockTime) -> Ends {
    Ends { start: CivilDateTime { date, time: start }, end: CivilDateTime { date, time: end } }
}

/// The two ends that a span without a zone holds.
pub uninterp spec fn span_ends(span: NaiveDateTimeSpan) -> Ends;

/// The UTC date and time of the one instant at which clocks in the zone Europe/Berlin show
/// `local`. `None` where they never show it (skipped when clocks are set forward) or show
/// it twice (repeated when clocks are set back), and where that instant lies in UTC in no
/// year that a date can lie in.
pub uninterp spec fn berlin_to_utc(local: CivilDateTime) -> Option<CivilDateTime>;

/// Calls `timespan::NaiveDateTimeSpan::new` on the times `start` and `end` of the day `date`.
///
/// Trusted: the span is made where `start` is earlier than `end`, and refused otherwise; it
/// holds the two ends it was made from.
#[verifier::external_body]
pub(crate) fn local_span(date: CivilDate, start: ClockTime, end: ClockTime) -> (span: Result<
    NaiveDateTimeSpan,
    timespan::Error,
>)
    requires
        date.is_valid(),
        start.is_valid(),
        end.is_valid(),
    ensures
        span is Ok <==> start.before(end),
        span matches Ok(made) ==> span_ends(made) == ends_on(date, start, end),
{
    let day = NaiveDate::from_ymd_opt(date.year, date.month, date.day).unwrap();
    let from = day.and_hms_opt(start.hour, start.minute, start.second).unwrap();
    let to = day.and_hms_opt(end.hour, end.minute, end.second).unwrap();
    NaiveDateTimeSpan::new(from, to)
}

/// Calls `timespan::DateTimeSpan::from_local_datetimespan` with `chrono_tz::Europe::Berlin`
/// and hands out both ends of the result in UTC.
///
/// Trusted: each end is resolved by itself, from its date and time alone; the call fails
/// where either end is skipped or repeated in that zone; the UTC ends are dates and times
/// that exist.
#[verifier::external_body]
pub(crate) fn berlin_span(local: &NaiveDateTimeSpan) -> (resolved: Result<Ends, timespan::Error>)
    ensures
        resolved is Ok <==> (berlin_to_utc(span_ends(*local).start) is Some && berlin_to_utc(
            span_ends(*local).end,
        ) is Some),
        resolved matches Ok(utc) ==> berlin_to_utc(span_ends(*local).start) == Some(utc.start),
        resolved matches Ok(utc) ==> berlin_to_utc(span_ends(*local).end) == Some(utc.end),
        resolved matches Ok(utc) ==> utc.start.is_valid() && utc.end.is_valid(),
{
    let span = DateTimeSpan::from_local_datetimespan(local, &Berlin)?;
    let (a, b) = (span.start.naive_utc(), span.end.naive_utc());
    Ok(
        Ends {
            start: CivilDateTime {
                date: CivilDate { year: a.year(), month: a.month(), day: a.day() },
                time: ClockTime { hour: a.hour(), minute: a.minute(), second: a.second() },
            },
            end: CivilDateTime {
                date: CivilDate { year: b.year(), month: b.month(), day: b.day() },
                time: ClockTime { hour: b.hour(), minute: b.minute(), second: b.second() },
            },
        },
    )
}

} // verus!
