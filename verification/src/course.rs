//! A course and its sessions, read out of a page and made into a calendar.

use crate::calendar::{
    calendar_event_views, CalendarDocument, CalendarDocumentView, CalendarEvent,
    CalendarEventView, PRODUCT, VERSION,
};
use crate::civil::stamp_text;
use crate::error::CourseError;
use crate::interval::{parse_line, parse_timespan, Interval, IntervalView};
use crate::page::{
    attribute_of, find_class, find_class_below, find_named_in_class, first_in_class_below,
    first_named_in_class, is_parsed, node_attribute, node_count, node_text, nodes_in_class,
    text_of,
};
use crate::text::{strip_prefix, trim, trimmed, without_prefix};
use select::document::Document;
use vstd::prelude::*;

verus! {

/// Class of the container that holds the heading with the name of the course.
pub const COURSE_SECTION: &'static str = "subc";

/// Element that holds the name of the course.
pub const HEADING: &'static str = "h1";

/// Class of the node that stands for one session.
pub const SESSION_LINK: &'static str = "link_to_details";

/// Class of the node below a session that holds its date and time.
pub const SESSION_DATE_TIME: &'static str = "course_date_time";

/// Attribute of a session that holds its identifier.
pub const ID_ATTRIBUTE: &'static str = "id";

/// What stands before the identifier in the attribute of a session.
pub const ID_PREFIX: &'static str = "link_to_details_";

/// What a page says of one session: the value of its identifier attribute and the text
/// that holds its date and time, each as far as the page has it.
#[derive(Clone, Debug)]
pub struct SessionBlock {
    pub id: Option<String>,
    pub date_time: Option<String>,
}

/// What a [`SessionBlock`] holds.
pub struct SessionBlockView {
    pub id: Option<Seq<char>>,
    pub date_time: Option<Seq<char>>,
}

/// One session of a course.
#[derive(Clone, Debug)]
pub struct CourseEvent {
    pub id: String,
    pub timespan: Interval,
}

/// What a [`CourseEvent`] holds.
pub struct CourseEventView {
    pub id: Seq<char>,
    pub timespan: IntervalView,
}

/// A course: its name and its sessions in the order of the page.
#[derive(Clone, Debug)]
pub struct Course {
    pub name: String,
    pub events: Vec<CourseEvent>,
}

/// What a [`Course`] holds.
pub struct CourseView {
    pub name: Seq<char>,
    pub events: Seq<CourseEventView>,
}

impl View for SessionBlock {
    type V = SessionBlockView;

    open spec fn view(&self) -> SessionBlockView {
        SessionBlockView {
            id: match self.id {
                Some(id) => Some(id@),
                None => None,
            },
            date_time: match self.date_time {
                Some(text) => Some(text@),
                None => None,
            },
        }
    }
}

impl View for CourseEvent {
    type V = CourseEventView;

    open spec fn view(&self) -> CourseEventView {
        CourseEventView { id: self.id@, timespan: self.timespan@ }
    }
}

impl View for Course {
    type V = CourseView;

    open spec fn view(&self) -> CourseView {
        CourseView { name: self.name@, events: event_views(self.events@) }
    }
}

/// The views of a sequence of blocks.
pub open spec fn block_views(blocks: Seq<SessionBlock>) -> Seq<SessionBlockView> {
    Seq::new(blocks.len(), |i: int| blocks[i]@)
}

/// The views of a sequence of sessions.
pub open spec fn event_views(events: Seq<CourseEvent>) -> Seq<CourseEventView> {
    Seq::new(events.len(), |i: int| events[i]@)
}

/// The session that a block describes. A block without date and time is refused before its
/// date and time are read, and those are read before the identifier is looked for.
pub open spec fn event_of(block: SessionBlockView) -> Result<CourseEventView, CourseError> {
    match block.date_time {
        None => Err(CourseError::MissingDateTime),
        Some(text) => match parse_line(trimmed(text)) {
            Err(error) => Err(CourseError::Timespan(error)),
            Ok(timespan) => match block.id {
                None => Err(CourseError::MissingId),
                Some(id) => Ok(CourseEventView { id: without_prefix(id, ID_PREFIX@), timespan }),
            },
        },
    }
}

/// The sessions that blocks describe, in their order; the error of the first block that
/// describes none.
pub open spec fn events_of(blocks: Seq<SessionBlockView>) -> Result<
    Seq<CourseEventView>,
    CourseError,
>
    decreases blocks.len(),
{
    if blocks.len() == 0 {
        Ok(Seq::empty())
    } else {
        match events_of(blocks.drop_last()) {
            Err(error) => Err(error),
            Ok(events) => match event_of(blocks.last()) {
                Err(error) => Err(error),
                Ok(event) => Ok(events.push(event)),
            },
        }
    }
}

/// The name of the course of a page with the heading `heading`: the text of the heading
/// without the white space around it.
pub open spec fn name_of(heading: Option<Seq<char>>) -> Result<Seq<char>, CourseError> {
    match heading {
        None => Err(CourseError::MissingCourseName),
        Some(text) => Ok(trimmed(text)),
    }
}

/// The course with the heading `heading` and the sessions that `blocks` describe. The
/// heading is asked for before any block is looked at.
pub open spec fn course_of(heading: Option<Seq<char>>, blocks: Seq<SessionBlockView>) -> Result<
    CourseView,
    CourseError,
> {
    match name_of(heading) {
        Err(error) => Err(error),
        Ok(name) => match events_of(blocks) {
            Err(error) => Err(error),
            Ok(events) => Ok(CourseView { name, events }),
        },
    }
}

/// The text of the heading of a page, if it has one.
pub open spec fn heading_in(document: Document) -> Option<Seq<char>> {
    match first_named_in_class(document, COURSE_SECTION@, HEADING@) {
        Some(node) => Some(node_text(document, node)),
        None => None,
    }
}

/// What a page says of the session that the node `node` stands for.
pub open spec fn block_at(document: Document, node: usize) -> SessionBlockView {
    SessionBlockView {
        id: node_attribute(document, node, ID_ATTRIBUTE@),
        date_time: match first_in_class_below(document, node, SESSION_DATE_TIME@) {
            Some(below) => Some(node_text(document, below)),
            None => None,
        },
    }
}

/// What a page says of its sessions, in document order.
pub open spec fn blocks_in(document: Document) -> Seq<SessionBlockView> {
    nodes_in_class(document, SESSION_LINK@).map_values(|node: usize| block_at(document, node))
}

/// The view of a result that holds a text.
pub open spec fn text_outcome(made: Result<String, CourseError>) -> Result<
    Seq<char>,
    CourseError,
> {
    match made {
        Ok(text) => Ok(text@),
        Err(error) => Err(error),
    }
}

/// The view of a result that holds one session.
pub open spec fn event_outcome(made: Result<CourseEvent, CourseError>) -> Result<
    CourseEventView,
    CourseError,
> {
    match made {
        Ok(event) => Ok(event@),
        Err(error) => Err(error),
    }
}

/// The view of a result that holds sessions.
pub open spec fn events_outcome(made: Result<Vec<CourseEvent>, CourseError>) -> Result<
    Seq<CourseEventView>,
    CourseError,
> {
    match made {
        Ok(events) => Ok(event_views(events@)),
        Err(error) => Err(error),
    }
}

/// The view of a result that holds a course.
pub open spec fn course_outcome(made: Result<Course, CourseError>) -> Result<
    CourseView,
    CourseError,
> {
    match made {
        Ok(course) => Ok(course@),
        Err(error) => Err(error),
    }
}

/// The calendar event for a session of the course `name` in the series that `anchor` names.
/// The event is stamped with its own start.
pub open spec fn calendar_event_of(
    name: Seq<char>,
    anchor: Seq<char>,
    event: CourseEventView,
) -> CalendarEventView {
    CalendarEventView {
        uid: event.id,
        stamp: stamp_text(event.timespan.utc.start),
        start: stamp_text(event.timespan.utc.start),
        end: stamp_text(event.timespan.utc.end),
        summary: name,
        related_to: anchor,
    }
}

/// The calendar of a course: one event for each session, in order, each a child of the
/// first. A course without sessions has no calendar.
pub open spec fn calendar_of(course: CourseView) -> Result<CalendarDocumentView, CourseError> {
    if course.events.len() == 0 {
        Err(CourseError::NoOccurrences)
    } else {
        Ok(
            CalendarDocumentView {
                version: VERSION@,
                product: PRODUCT@,
                events: course.events.map_values(
                    |event: CourseEventView|
                        calendar_event_of(course.name, course.events[0].id, event),
                ),
            },
        )
    }
}

/// The view of a result that holds a calendar.
pub open spec fn calendar_outcome(made: Result<CalendarDocument, CourseError>) -> Result<
    CalendarDocumentView,
    CourseError,
> {
    match made {
        Ok(document) => Ok(document@),
        Err(error) => Err(error),
    }
}

/// The sessions of a longer sequence of blocks begin with those of each shorter one: an
/// error among the first `n` blocks is the error of all.
pub proof fn lemma_first_error_stays(blocks: Seq<SessionBlockView>, n: int)
    requires
        0 <= n <= blocks.len(),
        events_of(blocks.take(n)) is Err,
    ensures
        events_of(blocks) == events_of(blocks.take(n)),
    decreases blocks.len(),
{
    if n < blocks.len() {
        assert(blocks.drop_last().take(n) == blocks.take(n));
        lemma_first_error_stays(blocks.drop_last(), n);
    } else {
        assert(blocks.take(n) == blocks);
    }
}

/// One more block gives one more session, or the first error.
pub proof fn lemma_events_of_next(blocks: Seq<SessionBlockView>, n: int)
    requires
        0 <= n < blocks.len(),
    ensures
        events_of(blocks.take(n + 1)) == match events_of(blocks.take(n)) {
            Err(error) => Err(error),
            Ok(events) => match event_of(blocks[n]) {
                Err(error) => Err(error),
                Ok(event) => Ok(events.push(event)),
            },
        },
{
    assert(blocks.take(n + 1).drop_last() == blocks.take(n));
    assert(blocks.take(n + 1).last() == blocks[n]);
}

impl CourseEvent {
    /// The session that a block describes.
    pub fn from_block(block: &SessionBlock) -> (made: Result<CourseEvent, CourseError>)
        ensures
            event_outcome(made) == event_of(block@),
    {
        let text = match &block.date_time {
            Some(text) => text,
            None => {
                return Err(CourseError::MissingDateTime);
            },
        };
        let timespan = match parse_timespan(trim(text.as_str()).to_owned()) {
            Ok(timespan) => timespan,
            Err(error) => {
                return Err(CourseError::Timespan(error));
            },
        };
        let id = match &block.id {
            Some(id) => id,
            None => {
                return Err(CourseError::MissingId);
            },
        };
        Ok(CourseEvent { id: strip_prefix(id.as_str(), ID_PREFIX).to_owned(), timespan })
    }

    /// The sessions that blocks describe, in their order; the error of the first block that
    /// describes none.
    pub fn all_from_blocks(blocks: &Vec<SessionBlock>) -> (made: Result<
        Vec<CourseEvent>,
        CourseError,
    >)
        ensures
            events_outcome(made) == events_of(block_views(blocks@)),
    {
        let ghost all = block_views(blocks@);
        let mut events: Vec<CourseEvent> = Vec::new();
        let mut i: usize = 0;
        proof {
            assert(event_views(events@) == Seq::<CourseEventView>::empty());
        }
        while i < blocks.len()
            invariant
                all == block_views(blocks@),
                i <= blocks.len(),
                events_of(all.take(i as int)) == Ok::<Seq<CourseEventView>, CourseError>(
                    event_views(events@),
                ),
            decreases blocks.len() - i,
        {
            proof {
                lemma_events_of_next(all, i as int);
            }
            match CourseEvent::from_block(&blocks[i]) {
                Ok(event) => {
                    proof {
                        assert(event_views(events@.push(event)) == event_views(events@).push(
                            event@,
                        ));
                    }
                    events.push(event);
                },
                Err(error) => {
                    proof {
                        lemma_first_error_stays(all, i + 1);
                    }
                    return Err(error);
                },
            }
            i += 1;
        }
        proof {
            assert(all.take(i as int) == all);
        }
        Ok(events)
    }

    /// What a page says of its sessions, in document order.
    ///
    /// The document is one that `select` parsed, unchanged since.
    pub fn blocks_from_document(document: &Document) -> (blocks: Vec<SessionBlock>)
        requires
            is_parsed(*document),
        ensures
            block_views(blocks@) == blocks_in(*document),
    {
        let nodes = find_class(document, SESSION_LINK);
        let mut blocks: Vec<SessionBlock> = Vec::new();
        let mut i: usize = 0;
        while i < nodes.len()
            invariant
                is_parsed(*document),
                i <= nodes.len(),
                nodes@ == nodes_in_class(*document, SESSION_LINK@),
                forall|k: int|
                    0 <= k < nodes@.len() ==> (#[trigger] nodes@[k]) < node_count(*document),
                blocks.len() == i,
                forall|k: int|
                    0 <= k < i ==> (#[trigger] blocks@[k])@ == block_at(*document, nodes@[k]),
            decreases nodes.len() - i,
        {
            let node = nodes[i];
            let date_time = match find_class_below(document, node, SESSION_DATE_TIME) {
                Some(below) => Some(text_of(document, below)),
                None => None,
            };
            let id = attribute_of(document, node, ID_ATTRIBUTE);
            blocks.push(SessionBlock { id, date_time });
            i += 1;
        }
        proof {
            assert(block_views(blocks@) =~= blocks_in(*document));
        }
        blocks
    }

    /// The sessions of a page, in document order.
    ///
    /// The document is one that `select` parsed, unchanged since.
    pub fn all_from_document(document: &Document) -> (made: Result<Vec<CourseEvent>, CourseError>)
        requires
            is_parsed(*document),
        ensures
            events_outcome(made) == events_of(blocks_in(*document)),
    {
        let blocks = CourseEvent::blocks_from_document(document);
        CourseEvent::all_from_blocks(&blocks)
    }
}

impl Course {
    /// The course with the heading `heading` and the sessions that `blocks` describe.
    pub fn from_parts(heading: Option<&str>, blocks: &Vec<SessionBlock>) -> (made: Result<
        Course,
        CourseError,
    >)
        ensures
            course_outcome(made) == course_of(
                match heading {
                    Some(text) => Some(text@),
                    None => None,
                },
                block_views(blocks@),
            ),
    {
        let name = match heading {
            Some(text) => trim(text).to_owned(),
            None => {
                return Err(CourseError::MissingCourseName);
            },
        };
        match CourseEvent::all_from_blocks(blocks) {
            Ok(events) => Ok(Course { name, events }),
            Err(error) => Err(error),
        }
    }

    /// The name of the course of a page: the text of its heading without the white space
    /// around it.
    ///
    /// The document is one that `select` parsed, unchanged since.
    pub fn name_from_document(document: &Document) -> (name: Result<String, CourseError>)
        requires
            is_parsed(*document),
        ensures
            text_outcome(name) == name_of(heading_in(*document)),
    {
        match find_named_in_class(document, COURSE_SECTION, HEADING) {
            Some(node) => Ok(trim(text_of(document, node).as_str()).to_owned()),
            None => Err(CourseError::MissingCourseName),
        }
    }

    /// The calendar of the course.
    pub fn to_ical(self) -> (made: Result<CalendarDocument, CourseError>)
        ensures
            calendar_outcome(made) == calendar_of(self@),
    {
        if self.events.len() == 0 {
            return Err(CourseError::NoOccurrences);
        }
        let first_id = self.events[0].id.clone();
        let mut events: Vec<CalendarEvent> = Vec::new();
        let mut i: usize = 0;
        while i < self.events.len()
            invariant
                i <= self.events.len(),
                self.events.len() > 0,
                first_id@ == self@.events[0].id,
                events.len() == i,
                forall|k: int|
                    0 <= k < i ==> (#[trigger] events@[k])@ == calendar_event_of(
                        self@.name,
                        first_id@,
                        self@.events[k],
                    ),
            decreases self.events.len() - i,
        {
            let event = &self.events[i];
            let utc = event.timespan.utc();
            let start = utc.start.stamp();
            let end = utc.end.stamp();
            events.push(
                CalendarEvent {
                    uid: event.id.clone(),
                    stamp: start.clone(),
                    start,
                    end,
                    summary: self.name.clone(),
                    related_to: first_id.clone(),
                },
            );
            i += 1;
        }
        proof {
            assert(calendar_event_views(events@) =~= self@.events.map_values(
                |event: CourseEventView| calendar_event_of(self@.name, self@.events[0].id, event),
            ));
        }
        match CalendarDocument::new(events) {
            Some(document) => Ok(document),
            None => Err(CourseError::NoOccurrences),
        }
    }

    /// The course of a page.
    ///
    /// The document is one that `select` parsed, unchanged since.
    pub fn from_document(document: &Document) -> (made: Result<Course, CourseError>)
        requires
            is_parsed(*document),
        ensures
            course_outcome(made) == course_of(heading_in(*document), blocks_in(*document)),
    {
        let name = match Course::name_from_document(document) {
            Ok(name) => name,
            Err(error) => {
                return Err(error);
            },
        };
        match CourseEvent::all_from_document(document) {
            Ok(events) => Ok(Course { name, events }),
            Err(error) => Err(error),
        }
    }
}

} // verus!
