//! What holds of the library, over the spec functions that its contracts are stated in.
//!
//! What is said here of a [`ShapedLine`] holds of [`parse_timespan`] on every line of that
//! shape, by the second clause of its contract.
//!
//! [`ShapedLine`]: crate::interval::ShapedLine
//! [`parse_timespan`]: crate::interval::parse_timespan

use crate::calendar::CalendarDocumentView;
use crate::civil::{is_date, is_time, CivilDate, CivilDateTime, ClockTime};
use crate::course::{
    block_at, blocks_in, calendar_of, course_of, event_of, events_of, CourseEventView,
    CourseView, SessionBlockView, ID_PREFIX, SESSION_LINK,
};
use crate::error::CourseError;
use crate::interval::{
    line_fields, parse_line, resolve, well_formed, IntervalView, TimespanError, ShapedLine,
};
use crate::page::nodes_in_class;
use crate::text::{trimmed, without_prefix};
use crate::zone::{berlin_to_utc, ends_on};
use select::document::Document;
use vstd::prelude::*;

verus! {

/// Whether a block holds an identifier and a date and time that is read.
pub open spec fn is_complete(block: SessionBlockView) -> bool {
    &&& block.id is Some
    &&& block.date_time matches Some(text)
    &&& parse_line(trimmed(text)) is Ok
}

/// A line of the exact shape is read where the calendar has its date, a clock shows both
/// of its times, the start is earlier than the end, and clocks in the zone show each of
/// them exactly once. The interval then holds the date and the times that the line holds,
/// and the instants that the zone resolves them to.
pub proof fn well_formed_line_is_read(line: ShapedLine)
    requires
        is_date(line.year, line.month, line.day),
        is_time(line.start_hour, line.start_minute, 0),
        is_time(line.end_hour, line.end_minute, 0),
        line.start().before(line.end()),
        berlin_to_utc(CivilDateTime { date: line.date(), time: line.start() }) is Some,
        berlin_to_utc(CivilDateTime { date: line.date(), time: line.end() }) is Some,
    ensures
        line.read() matches Ok(interval) && interval.local == ends_on(
            line.date(),
            line.start(),
            line.end(),
        ) && berlin_to_utc(interval.local.start) == Some(interval.utc.start) && berlin_to_utc(
            interval.local.end,
        ) == Some(interval.utc.end),
{
}

/// A line that does not split into four fields is not read.
pub proof fn wrong_field_count_is_refused(line: Seq<char>)
    requires
        line_fields(line).len() != 4,
    ensures
        parse_line(line) == Err::<IntervalView, TimespanError>(TimespanError::FieldCount),
{
}

/// A line of the exact shape with a date that the calendar does not have is not read.
pub proof fn impossible_date_is_refused(line: ShapedLine)
    requires
        !is_date(line.year, line.month, line.day),
    ensures
        line.read() == Err::<IntervalView, TimespanError>(TimespanError::InvalidDate),
{
}

/// A line of the exact shape with a time that no clock shows is not read.
pub proof fn impossible_time_is_refused(line: ShapedLine)
    requires
        is_date(line.year, line.month, line.day),
        !is_time(line.start_hour, line.start_minute, 0) || !is_time(
            line.end_hour,
            line.end_minute,
            0,
        ),
    ensures
        line.read() == Err::<IntervalView, TimespanError>(TimespanError::InvalidTime),
{
}

/// A line of the exact shape whose end is not later than its start is not read.
pub proof fn backward_line_is_refused(line: ShapedLine)
    requires
        is_date(line.year, line.month, line.day),
        is_time(line.start_hour, line.start_minute, 0),
        is_time(line.end_hour, line.end_minute, 0),
        line.end_hour < line.start_hour || (line.end_hour == line.start_hour && line.end_minute
            <= line.start_minute),
    ensures
        line.read() == Err::<IntervalView, TimespanError>(TimespanError::NonPositiveDuration),
{
}

/// A session whose end is not later on the clock than its start is not read.
pub proof fn end_not_after_start_is_refused(date: CivilDate, start: ClockTime, end: ClockTime)
    requires
        !start.before(end),
    ensures
        resolve(date, start, end) == Err::<IntervalView, TimespanError>(
            TimespanError::NonPositiveDuration,
        ),
{
}

/// A start or an end that clocks in the zone skip or repeat is answered with an error, the
/// same one each time: no instant is picked for it.
pub proof fn skipped_or_repeated_time_is_refused(date: CivilDate, start: ClockTime, end: ClockTime)
    requires
        start.before(end),
        berlin_to_utc(CivilDateTime { date, time: start }) is None || berlin_to_utc(
            CivilDateTime { date, time: end },
        ) is None,
    ensures
        resolve(date, start, end) == Err::<IntervalView, TimespanError>(
            TimespanError::LocalTimeUnresolved,
        ),
{
}

/// Every interval that is read is well formed.
pub proof fn read_interval_is_well_formed(date: CivilDate, start: ClockTime, end: ClockTime)
    requires
        date.is_valid(),
        start.is_valid(),
        end.is_valid(),
        berlin_to_utc(CivilDateTime { date, time: start }) matches Some(from) ==> from.is_valid(),
        berlin_to_utc(CivilDateTime { date, time: end }) matches Some(to) ==> to.is_valid(),
    ensures
        resolve(date, start, end) matches Ok(interval) ==> well_formed(interval),
{
}

/// Blocks that are all complete give as many sessions as there are blocks, in the same
/// order, each with the identifier of its block without the prefix and with the interval
/// that the date and time of its block is read as.
pub proof fn complete_blocks_give_all_sessions(blocks: Seq<SessionBlockView>)
    requires
        forall|i: int| 0 <= i < blocks.len() ==> is_complete(#[trigger] blocks[i]),
    ensures
        events_of(blocks) matches Ok(events) && events.len() == blocks.len() && forall|i: int|
            0 <= i < blocks.len() ==> event_of(blocks[i]) == Ok::<CourseEventView, CourseError>(
                #[trigger] events[i],
            ) && events[i].id == without_prefix(blocks[i].id->0, ID_PREFIX@) && parse_line(
                trimmed(blocks[i].date_time->0),
            ) == Ok::<IntervalView, TimespanError>(events[i].timespan),
    decreases blocks.len(),
{
    if blocks.len() > 0 {
        let front = blocks.drop_last();
        assert forall|i: int| 0 <= i < front.len() implies is_complete(#[trigger] front[i]) by {
            assert(front[i] == blocks[i]);
        }
        complete_blocks_give_all_sessions(front);
        assert(is_complete(blocks.last()));
        let events = events_of(blocks)->Ok_0;
        assert forall|i: int| 0 <= i < blocks.len() implies event_of(blocks[i]) == Ok::<
            CourseEventView,
            CourseError,
        >(#[trigger] events[i]) by {
            if i < front.len() {
                assert(front[i] == blocks[i]);
            }
        }
    }
}

/// A page whose sessions all hold an identifier and a date and time that is read gives as
/// many sessions as it has nodes that stand for one, in document order, each with the
/// identifier of its node without the prefix.
pub proof fn page_gives_one_session_for_each_node(document: Document)
    requires
        forall|i: int|
            0 <= i < nodes_in_class(document, SESSION_LINK@).len() ==> is_complete(
                block_at(document, #[trigger] nodes_in_class(document, SESSION_LINK@)[i]),
            ),
    ensures
        events_of(blocks_in(document)) matches Ok(events) && events.len() == nodes_in_class(
            document,
            SESSION_LINK@,
        ).len() && forall|i: int|
            0 <= i < events.len() ==> (#[trigger] events[i]).id == without_prefix(
                block_at(document, nodes_in_class(document, SESSION_LINK@)[i]).id->0,
                ID_PREFIX@,
            ),
{
    let blocks = blocks_in(document);
    assert forall|i: int| 0 <= i < blocks.len() implies is_complete(#[trigger] blocks[i]) by {
        assert(blocks[i] == block_at(document, nodes_in_class(document, SESSION_LINK@)[i]));
    }
    complete_blocks_give_all_sessions(blocks);
}

/// A page without heading gives no course, whatever its sessions are.
pub proof fn missing_heading_is_refused(blocks: Seq<SessionBlockView>)
    ensures
        course_of(None, blocks) == Err::<CourseView, CourseError>(CourseError::MissingCourseName),
{
}

/// The calendar of a course with sessions holds one event for each session, in order. Each
/// event has the identifier of its session and the name of the course, and each, the first
/// too, is related to the identifier of the first session.
pub proof fn every_event_is_child_of_the_first(course: CourseView)
    requires
        course.events.len() > 0,
    ensures
        calendar_of(course) matches Ok(calendar) && calendar.events.len() == course.events.len()
            && forall|i: int|
            0 <= i < course.events.len() ==> (#[trigger] calendar.events[i]).uid
                == course.events[i].id && calendar.events[i].related_to == course.events[0].id
                && calendar.events[i].summary == course.name && calendar.events[i].stamp
                == calendar.events[i].start,
{
}

/// A course without sessions has no calendar.
pub proof fn course_without_sessions_is_refused(course: CourseView)
    requires
        course.events.len() == 0,
    ensures
        calendar_of(course) == Err::<CalendarDocumentView, CourseError>(
            CourseError::NoOccurrences,
        ),
{
}

} // verus!
