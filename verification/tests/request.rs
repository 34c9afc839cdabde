use course_ical::error::CourseError;
use course_ical::interval::TimespanError;
use course_ical::request::RequestedCourse;

const PAGE: &str = "<html><body>\
    <div class=\"subc\"><h1> Biochemie I </h1></div>\
    <div class=\"link_to_details\" id=\"link_to_details_101\">\
    <span class=\"course_date_time\">Di, 15.10.2019 08:00 - 10:00</span></div>\
    <div class=\"link_to_details\" id=\"link_to_details_102\">\
    <span class=\"course_date_time\">Di, 14.01.2020 08:00 - 10:00</span></div>\
    </body></html>";

#[test]
fn names_a_page_by_course_and_semester() {
    let course = RequestedCourse::new("524870", "498562");
    assert_eq!(course.id, "524870");
    assert_eq!(course.semester, "498562");
    let course = RequestedCourse::new("", "");
    assert_eq!(course.id, "");
    assert_eq!(course.semester, "");
}

#[test]
fn builds_the_address_of_a_page() {
    let course = RequestedCourse::new("524870", "498562");
    assert_eq!(course.url(), "https://www.fu-berlin.de/vv/de/lv/524870?sm=498562");
    assert_eq!(RequestedCourse::new("", "").url(), "https://www.fu-berlin.de/vv/de/lv/?sm=");
}

#[test]
fn takes_the_text_of_an_answer() {
    let course = RequestedCourse::new("524870", "498562");
    assert_eq!(course.page_text(200, b"<html>".to_vec()), Ok("<html>".to_string()));
    assert_eq!(course.page_text(299, "Übung".as_bytes().to_vec()), Ok("Übung".to_string()));
    assert_eq!(course.page_text(204, Vec::new()), Ok(String::new()));
}

#[test]
fn refuses_an_answer_without_success() {
    let course = RequestedCourse::new("524870", "498562");
    for status in [0, 100, 199, 300, 301, 404, 500, 599, u16::MAX] {
        assert_eq!(
            course.page_text(status, b"<html>".to_vec()),
            Err(CourseError::HttpRequestError)
        );
        assert_eq!(
            course.get_as_ical(status, PAGE.as_bytes().to_vec()).err(),
            Some(CourseError::HttpRequestError)
        );
    }
}

#[test]
fn refuses_a_body_that_is_no_text() {
    let course = RequestedCourse::new("524870", "498562");
    assert_eq!(course.page_text(200, vec![0xff]), Err(CourseError::InvalidText));
    assert_eq!(course.page_text(200, vec![b'a', 0xc3]), Err(CourseError::InvalidText));
    assert_eq!(course.page_text(200, vec![0xed, 0xa0, 0x80]), Err(CourseError::InvalidText));
    assert_eq!(course.page_text(200, vec![0xc0, 0x80]), Err(CourseError::InvalidText));
    assert_eq!(course.page_text(404, vec![0xff]), Err(CourseError::InvalidText));
    assert_eq!(course.get_as_ical(200, vec![0xff]).err(), Some(CourseError::InvalidText));
}

#[test]
fn makes_the_calendar_of_a_fetched_page() {
    let course = RequestedCourse::new("525101", "498562");
    let calendar = course.get_as_ical(200, PAGE.as_bytes().to_vec()).unwrap();
    let events = calendar.events();
    assert_eq!(events.len(), 2);
    assert_eq!(events[0].uid, "101");
    assert_eq!(events[0].start, "20191015T060000Z");
    assert_eq!(events[0].end, "20191015T080000Z");
    assert_eq!(events[0].summary, "Biochemie I");
    assert_eq!(events[0].related_to, "101");
    assert_eq!(events[1].uid, "102");
    assert_eq!(events[1].start, "20200114T070000Z");
    assert_eq!(events[1].end, "20200114T090000Z");
    assert_eq!(events[1].summary, "Biochemie I");
    assert_eq!(events[1].related_to, "101");
    let expected = "BEGIN:VCALENDAR\r\n\
        VERSION:2.0\r\n\
        PRODID:ics-rs\r\n\
        BEGIN:VEVENT\r\n\
        UID:101\r\n\
        DTSTAMP:20191015T060000Z\r\n\
        DTSTART:20191015T060000Z\r\n\
        DTEND:20191015T080000Z\r\n\
        SUMMARY:Biochemie I\r\n\
        RELATED-TO;RELTYPE=CHILD:101\r\n\
        END:VEVENT\r\n\
        BEGIN:VEVENT\r\n\
        UID:102\r\n\
        DTSTAMP:20200114T070000Z\r\n\
        DTSTART:20200114T070000Z\r\n\
        DTEND:20200114T090000Z\r\n\
        SUMMARY:Biochemie I\r\n\
        RELATED-TO;RELTYPE=CHILD:101\r\n\
        END:VEVENT\r\n\
        END:VCALENDAR\r\n";
    assert_eq!(calendar.to_text(), expected);
}

#[test]
fn gives_the_errors_of_a_fetched_page() {
    let course = RequestedCourse::new("525101", "498562");
    let make = |page: &str| course.get_as_ical(200, page.as_bytes().to_vec()).err();
    assert_eq!(make(""), Some(CourseError::MissingCourseName));
    assert_eq!(
        make("<div class=\"subc\"><h1>Botanik</h1></div>"),
        Some(CourseError::NoOccurrences)
    );
    assert_eq!(
        make("<div class=\"subc\"><h1>Botanik</h1><p class=\"link_to_details\"></p></div>"),
        Some(CourseError::MissingDateTime)
    );
    assert_eq!(
        make(
            "<div class=\"subc\"><h1>Botanik</h1><p class=\"link_to_details\">\
             <i class=\"course_date_time\">Mo, 21.10.2019 10:00 - 13:00</i></p></div>"
        ),
        Some(CourseError::MissingId)
    );
    assert_eq!(
        make(
            "<div class=\"subc\"><h1>Botanik</h1><p class=\"link_to_details\" id=\"x\">\
             <i class=\"course_date_time\">Mo, 21.10.2019 10:00</i></p></div>"
        ),
        Some(CourseError::Timespan(TimespanError::FieldCount))
    );
}
