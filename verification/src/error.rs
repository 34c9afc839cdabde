//! Why no calendar was made.

use crate::interval::TimespanError;
use vstd::prelude::*;

verus! {

/// Why no calendar was made of a course page.
#[derive(Clone, Copy, Debug, PartialEq, Eq, Structural)]
pub enum CourseError {
    /// The server answered the request for the page with a status other than success.
    HttpRequestError,
    /// The body of the answer is no UTF-8 text.
    InvalidText,
    /// The page has no heading with the name of the course.
    MissingCourseName,
    /// A session of the page has no date and time.
    MissingDateTime,
    /// A session of the page has no identifier.
    MissingId,
    /// The date and time of a session were not read.
    Timespan(TimespanError),
    /// The course has no sessions.
    NoOccurrences,
}

} // verus!
