//! Calendars for the courses of the Freie Universität Berlin.
//!
//! The page of a course lists its sessions, one line of date and time each. This library
//! reads such a page into a [`Course`] and makes of it a [`CalendarDocument`] with one event
//! for each session. Fetching the page and writing the calendar file are left to the
//! caller: [`RequestedCourse::url`] says what to fetch, [`RequestedCourse::get_as_ical`]
//! takes what came back, and [`CalendarDocument::to_text`] gives what to write.
//!
//! Dates and times are read by `chrono` and resolved in the zone Europe/Berlin by
//! `chrono-tz` through `timespan`; pages are parsed and searched by `select`; the calendar
//! file is written by `ics`. What the library takes on trust from these crates is stated
//! in the contracts of the functions that call them, each marked `external_body`.

pub mod calendar;
pub mod civil;
pub mod course;
pub mod error;
pub mod interval;
pub mod laws;
pub mod page;
pub mod request;
pub mod text;
pub mod zone;

pub use calendar::{CalendarDocument, CalendarEvent};
pub use course::{Course, CourseEvent, SessionBlock};
pub use error::CourseError;
pub use interval::{parse_timespan, Interval, TimespanError};
pub use request::RequestedCourse;
