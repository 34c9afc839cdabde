//! The calendar of a course, and how `ics` holds and writes it.

use ics::components::{Parameter, Property};
use ics::properties::{DtEnd, DtStart, RelatedTo, Summary};
use ics::{Event, ICalendar};
use vstd::prelude::*;

verus! {

/// Version of the calendar format.
pub const VERSION: &'static str = "2.0";

/// Name of the product that made the calendar.
pub const PRODUCT: &'static str = "ics-rs";

/// Name of the parameter that says how an event is related to another.
pub const RELATION_TYPE: &'static str = "RELTYPE";

/// The relation of an event to the series it belongs to.
pub const CHILD: &'static str = "CHILD";

/// One event of a calendar. The times are written as the calendar format wants them.
#[derive(Clone, Debug)]
pub struct CalendarEvent {
    /// Identifier of the event.
    pub uid: String,
    /// When the event was made: its own start, so that one page always gives one calendar.
    pub stamp: String,
    /// When the event starts.
    pub start: String,
    /// When the event ends.
    pub end: String,
    /// Title of the event: the name of the course.
    pub summary: String,
    /// Identifier of the first event of the series, of which this one is a child.
    pub related_to: String,
}

/// What a [`CalendarEvent`] holds.
pub struct CalendarEventView {
    pub uid: Seq<char>,
    pub stamp: Seq<char>,
    pub start: Seq<char>,
    pub end: Seq<char>,
    pub summary: Seq<char>,
    pub related_to: Seq<char>,
}

/// A calendar: its events in order, under a fixed version and product name. It holds at
/// least one event.
#[derive(Debug)]
pub struct CalendarDocument {
    version: String,
    product: String,
    events: Vec<CalendarEvent>,
}

/// What a [`CalendarDocument`] holds.
pub struct CalendarDocumentView {
    pub version: Seq<char>,
    pub product: Seq<char>,
    pub events: Seq<CalendarEventView>,
}

/// One line of a calendar file: a name, parameters by name, and a value.
pub struct ContentLine {
    pub name: Seq<char>,
    pub parameters: Map<Seq<char>, Seq<char>>,
    pub value: Seq<char>,
}

/// The line `name:value`.
pub open spec fn plain_line(name: Seq<char>, value: Seq<char>) -> ContentLine {
    ContentLine { name, parameters: Map::empty(), value }
}

/// The line `line` with the parameter `name=value` added, or set anew.
pub open spec fn with_parameter(
    line: ContentLine,
    name: Seq<char>,
    value: Seq<char>,
) -> ContentLine {
    ContentLine {
        name: line.name,
        parameters: line.parameters.insert(name, value),
        value: line.value,
    }
}

impl View for CalendarEvent {
    type V = CalendarEventView;

    open spec fn view(&self) -> CalendarEventView {
        CalendarEventView {
            uid: self.uid@,
            stamp: self.stamp@,
            start: self.start@,
            end: self.end@,
            summary: self.summary@,
            related_to: self.related_to@,
        }
    }
}

impl View for CalendarDocument {
    type V = CalendarDocumentView;

    closed spec fn view(&self) -> CalendarDocumentView {
        CalendarDocumentView {
            version: self.version@,
            product: self.product@,
            events: calendar_event_views(self.events@),
        }
    }
}

/// The views of a sequence of events.
pub open spec fn calendar_event_views(events: Seq<CalendarEvent>) -> Seq<CalendarEventView> {
    Seq::new(events.len(), |i: int| events[i]@)
}

/// The lines that a calendar file holds for one event, in order, under the names that
/// `ics` gives them.
pub open spec fn lines_of_event(event: CalendarEventView) -> Seq<ContentLine> {
    seq![
        plain_line("UID"@, event.uid),
        plain_line("DTSTAMP"@, event.stamp),
        plain_line("DTSTART"@, event.start),
        plain_line("DTEND"@, event.end),
        plain_line("SUMMARY"@, event.summary),
        with_parameter(plain_line("RELATED-TO"@, event.related_to), RELATION_TYPE@, CHILD@),
    ]
}

/// The lines that a calendar file holds before its events.
pub open spec fn lines_of_header(document: CalendarDocumentView) -> Seq<ContentLine> {
    seq![plain_line("VERSION"@, document.version), plain_line("PRODID"@, document.product)]
}

/// The lines of each event of a calendar, in order.
pub open spec fn lines_of_events(document: CalendarDocumentView) -> Seq<Seq<ContentLine>> {
    document.events.map_values(|event: CalendarEventView| lines_of_event(event))
}

/// One line of a calendar, as `ics` holds it.
#[verifier::external_type_specification]
#[verifier::external_body]
pub struct ExProperty<'a>(ics::components::Property<'a>);

/// One event of a calendar, as `ics` holds it.
#[verifier::external_type_specification]
#[verifier::external_body]
pub struct ExEvent<'a>(ics::Event<'a>);

/// A calendar, as `ics` holds it.
#[verifier::external_type_specification]
#[verifier::external_body]
pub struct ExICalendar<'a>(ics::ICalendar<'a>);

/// The line that a property holds.
pub uninterp spec fn property_line(property: Property<'static>) -> ContentLine;

/// The lines that the properties of an event hold, in order. The event has no alarms.
pub uninterp spec fn event_lines(event: Event<'static>) -> Seq<ContentLine>;

/// The lines that the properties of a calendar hold, in order.
pub uninterp spec fn calendar_lines(calendar: ICalendar<'static>) -> Seq<ContentLine>;

/// The lines of each event of a calendar, in order. The calendar holds nothing but events.
pub uninterp spec fn calendar_events(calendar: ICalendar<'static>) -> Seq<Seq<ContentLine>>;

/// The text that `ics` writes for a calendar with the lines `lines` and events with the
/// lines `events`.
pub uninterp spec fn calendar_text(lines: Seq<ContentLine>, events: Seq<Seq<ContentLine>>) -> Seq<
    char,
>;

/// Calls `ics::properties::DtStart::new` and turns the result into a property.
///
/// Trusted: the property holds the name `DTSTART` and the value, and no parameter.
#[verifier::external_body]
pub(crate) fn start_property(value: &str) -> (property: Property<'static>)
    ensures
        property_line(property) == plain_line("DTSTART"@, value@),
{
    DtStart::new(value.to_owned()).into()
}

/// Calls `ics::properties::DtEnd::new` and turns the result into a property.
///
/// Trusted: the property holds the name `DTEND` and the value, and no parameter.
#[verifier::external_body]
pub(crate) fn end_property(value: &str) -> (property: Property<'static>)
    ensures
        property_line(property) == plain_line("DTEND"@, value@),
{
    DtEnd::new(value.to_owned()).into()
}

/// Calls `ics::properties::Summary::new` and turns the result into a property.
///
/// Trusted: the property holds the name `SUMMARY` and the value, and no parameter.
#[verifier::external_body]
pub(crate) fn summary_property(value: &str) -> (property: Property<'static>)
    ensures
        property_line(property) == plain_line("SUMMARY"@, value@),
{
    Summary::new(value.to_owned()).into()
}

/// Calls `ics::properties::RelatedTo::new` and turns the result into a property.
///
/// Trusted: the property holds the name `RELATED-TO` and the value, and no parameter.
#[verifier::external_body]
pub(crate) fn relation_property(value: &str) -> (property: Property<'static>)
    ensures
        property_line(property) == plain_line("RELATED-TO"@, value@),
{
    RelatedTo::new(value.to_owned()).into()
}

/// Calls `ics::components::Property::add` with a parameter made by
/// `ics::components::Parameter::new`.
///
/// Trusted: the property then holds the parameter, in place of one of the same name.
#[verifier::external_body]
pub(crate) fn add_parameter(property: &mut Property<'static>, name: &str, value: &str)
    ensures
        property_line(*final(property)) == with_parameter(
            property_line(*old(property)),
            name@,
            value@,
        ),
{
    property.add(Parameter::new(name.to_owned(), value.to_owned()))
}

/// Calls `ics::Event::new`.
///
/// Trusted: the event holds a line `UID` with the identifier, then a line `DTSTAMP` with
/// the stamp.
#[verifier::external_body]
pub(crate) fn new_event(uid: &str, stamp: &str) -> (event: Event<'static>)
    ensures
        event_lines(event) == seq![plain_line("UID"@, uid@), plain_line("DTSTAMP"@, stamp@)],
{
    Event::new(uid.to_owned(), stamp.to_owned())
}

/// Calls `ics::Event::push`.
///
/// Trusted: the line of the property comes after the lines that the event held.
#[verifier::external_body]
pub(crate) fn push_property(event: &mut Event<'static>, property: Property<'static>)
    ensures
        event_lines(*final(event)) == event_lines(*old(event)).push(property_line(property)),
{
    event.push(property)
}

/// Calls `ics::ICalendar::new`.
///
/// Trusted: the calendar holds a line `VERSION` with the version, then a line `PRODID` with
/// the product, and no event.
#[verifier::external_body]
pub(crate) fn new_calendar(version: &str, product: &str) -> (calendar: ICalendar<'static>)
    ensures
        calendar_lines(calendar) == seq![
            plain_line("VERSION"@, version@),
            plain_line("PRODID"@, product@),
        ],
        calendar_events(calendar) == Seq::<Seq<ContentLine>>::empty(),
{
    ICalendar::new(version.to_owned(), product.to_owned())
}

/// Calls `ics::ICalendar::add_event`.
///
/// Trusted: the event comes after the events that the calendar held; the lines of the
/// calendar stay.
#[verifier::external_body]
pub(crate) fn add_event(calendar: &mut ICalendar<'static>, event: Event<'static>)
    ensures
        calendar_events(*final(calendar)) == calendar_events(*old(calendar)).push(
            event_lines(event),
        ),
        calendar_lines(*final(calendar)) == calendar_lines(*old(calendar)),
{
    calendar.add_event(event)
}

/// Calls `to_string` on an `ics::ICalendar`.
///
/// Trusted: the text depends on the lines of the calendar and of its events alone.
#[verifier::external_body]
pub(crate) fn write_calendar(calendar: &ICalendar<'static>) -> (text: String)
    ensures
        text@ == calendar_text(calendar_lines(*calendar), calendar_events(*calendar)),
{
    calendar.to_string()
}

impl CalendarEvent {
    /// The event as `ics` holds it.
    pub fn to_ics(&self) -> (event: Event<'static>)
        ensures
            event_lines(event) == lines_of_event(self@),
    {
        let mut event = new_event(self.uid.as_str(), self.stamp.as_str());
        push_property(&mut event, start_property(self.start.as_str()));
        push_property(&mut event, end_property(self.end.as_str()));
        push_property(&mut event, summary_property(self.summary.as_str()));
        let mut relation = relation_property(self.related_to.as_str());
        add_parameter(&mut relation, RELATION_TYPE, CHILD);
        push_property(&mut event, relation);
        event
    }
}

impl CalendarDocument {
    #[verifier::type_invariant]
    closed spec fn sound(self) -> bool {
        &&& self.events@.len() > 0
        &&& self.version@ == VERSION@
        &&& self.product@ == PRODUCT@
    }

    /// The calendar with the events `events` under the fixed version and product name; none
    /// where there is no event.
    pub fn new(events: Vec<CalendarEvent>) -> (made: Option<CalendarDocument>)
        ensures
            made is Some <==> events@.len() > 0,
            made matches Some(document) ==> document@ == (CalendarDocumentView {
                version: VERSION@,
                product: PRODUCT@,
                events: calendar_event_views(events@),
            }),
    {
        if events.len() == 0 {
            None
        } else {
            Some(
                CalendarDocument {
                    version: VERSION.to_owned(),
                    product: PRODUCT.to_owned(),
                    events,
                },
            )
        }
    }

    /// Version of the calendar format, which is the same for every calendar.
    pub fn version(&self) -> (version: &str)
        ensures
            version@ == self@.version,
            version@ == VERSION@,
    {
        proof {
            use_type_invariant(self);
        }
        self.version.as_str()
    }

    /// Name of the product that made the calendar, which is the same for every calendar.
    pub fn product(&self) -> (product: &str)
        ensures
            product@ == self@.product,
            product@ == PRODUCT@,
    {
        proof {
            use_type_invariant(self);
        }
        self.product.as_str()
    }

    /// The events, of which there is at least one.
    pub fn events(&self) -> (events: &Vec<CalendarEvent>)
        ensures
            calendar_event_views(events@) == self@.events,
            events@.len() > 0,
    {
        proof {
            use_type_invariant(self);
        }
        &self.events
    }

    /// The calendar as `ics` holds it.
    pub fn to_ics(&self) -> (calendar: ICalendar<'static>)
        ensures
            calendar_lines(calendar) == lines_of_header(self@),
            calendar_events(calendar) == lines_of_events(self@),
    {
        let mut calendar = new_calendar(self.version.as_str(), self.product.as_str());
        let mut i: usize = 0;
        while i < self.events.len()
            invariant
                i <= self.events.len(),
                calendar_lines(calendar) == lines_of_header(self@),
                calendar_events(calendar) == lines_of_events(self@).take(i as int),
            decreases self.events.len() - i,
        {
            let event = self.events[i].to_ics();
            add_event(&mut calendar, event);
            proof {
                assert(lines_of_events(self@).take(i + 1) == lines_of_events(self@).take(
                    i as int,
                ).push(lines_of_event(self.events@[i as int]@)));
            }
            i += 1;
        }
        proof {
            assert(lines_of_events(self@).take(i as int) == lines_of_events(self@));
        }
        calendar
    }

    /// The text of the calendar file.
    pub fn to_text(&self) -> (text: String)
        ensures
            text@ == calendar_text(lines_of_header(self@), lines_of_events(self@)),
    {
        write_calendar(&self.to_ics())
    }
}

} // verus!
