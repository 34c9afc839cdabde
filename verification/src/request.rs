//! The request for the page of a course, and what is made of the answer.

use crate::calendar::{CalendarDocument, CalendarDocumentView};
use crate::course::{
    blocks_in, calendar_of, calendar_outcome, course_of, heading_in, text_outcome, Course,
};
use crate::error::CourseError;
use crate::page::{html_document, parse_html};
use select::document::Document;
use vstd::prelude::*;
use vstd::string::StringExecFns;
use vstd::utf8::{decode_utf8, valid_utf8};

verus! {

/// Where the pages of all courses stand.
pub const COURSE_PAGES: &'static str = "https://www.fu-berlin.de/vv/de/lv/";

/// What stands between the course and the semester in the address of a page.
pub const SEMESTER_QUERY: &'static str = "?sm=";

/// A course page to fetch: the course and the semester it is listed under.
#[derive(Debug)]
pub struct RequestedCourse {
    pub id: String,
    pub semester: String,
}

/// Whether a status says that the request succeeded.
pub open spec fn is_success(status: u16) -> bool {
    200 <= status < 300
}

/// The text of an answer. A body that is no text is refused before the status is looked at.
pub open spec fn text_of_response(status: u16, body: Seq<u8>) -> Result<Seq<char>, CourseError> {
    if !valid_utf8(body) {
        Err(CourseError::InvalidText)
    } else if !is_success(status) {
        Err(CourseError::HttpRequestError)
    } else {
        Ok(decode_utf8(body))
    }
}

/// The calendar of the course of a page.
pub open spec fn calendar_of_page(document: Document) -> Result<CalendarDocumentView, CourseError> {
    match course_of(heading_in(document), blocks_in(document)) {
        Err(error) => Err(error),
        Ok(course) => calendar_of(course),
    }
}

/// The calendar of the course whose page an answer holds.
pub open spec fn calendar_of_response(status: u16, body: Seq<u8>) -> Result<
    CalendarDocumentView,
    CourseError,
> {
    match text_of_response(status, body) {
        Err(error) => Err(error),
        Ok(html) => calendar_of_page(html_document(html)),
    }
}

/// Calls `String::from_utf8`.
///
/// Trusted: the bytes are taken as text where they are UTF-8, and refused otherwise.
#[verifier::external_body]
pub(crate) fn text_of_bytes(bytes: Vec<u8>) -> (text: Option<String>)
    ensures
        text is Some <==> valid_utf8(bytes@),
        text matches Some(read) ==> read@ == decode_utf8(bytes@),
{
    String::from_utf8(bytes).ok()
}

impl RequestedCourse {
    /// Names a course page by course and semester.
    pub fn new(id: &str, semester: &str) -> (course: Self)
        ensures
            course.id@ == id@,
            course.semester@ == semester@,
    {
        Self { id: id.to_owned(), semester: semester.to_owned() }
    }

    /// The address of the page.
    pub fn url(&self) -> (address: String)
        ensures
            address@ == COURSE_PAGES@ + self.id@ + SEMESTER_QUERY@ + self.semester@,
    {
        let mut address = COURSE_PAGES.to_owned();
        address.append(self.id.as_str());
        address.append(SEMESTER_QUERY);
        address.append(self.semester.as_str());
        address
    }

    /// The text of the page, out of the answer to a request for `self.url()`: its status and
    /// its whole body.
    pub fn page_text(&self, status: u16, body: Vec<u8>) -> (text: Result<String, CourseError>)
        ensures
            text_outcome(text) == text_of_response(status, body@),
    {
        let html = match text_of_bytes(body) {
            Some(html) => html,
            None => {
                return Err(CourseError::InvalidText);
            },
        };
        if status < 200 || status >= 300 {
            return Err(CourseError::HttpRequestError);
        }
        Ok(html)
    }

    /// The calendar of the course, out of the answer to a request for `self.url()`: its
    /// status and its whole body.
    pub fn get_as_ical(&self, status: u16, body: Vec<u8>) -> (made: Result<
        CalendarDocument,
        CourseError,
    >)
        ensures
            calendar_outcome(made) == calendar_of_response(status, body@),
    {
        let html = match self.page_text(status, body) {
            Ok(html) => html,
            Err(error) => {
                return Err(error);
            },
        };
        let document = parse_html(html.as_str());
        let course = match Course::from_document(&document) {
            Ok(course) => course,
            Err(error) => {
                return Err(error);
            },
        };
        course.to_ical()
    }
}

} // verus!
