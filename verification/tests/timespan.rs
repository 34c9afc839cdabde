use chrono::{Datelike, NaiveDate, TimeZone, Timelike};
use course_ical::civil::{CivilDate, CivilDateTime, ClockTime, MAX_YEAR, MIN_YEAR};
use course_ical::interval::{parse_timespan, Interval, TimespanError};

fn read(line: &str) -> Result<Interval, TimespanError> {
    parse_timespan(line.to_string())
}

fn at(year: i32, month: u32, day: u32, hour: u32, minute: u32) -> CivilDateTime {
    CivilDateTime {
        date: CivilDate { year, month, day },
        time: ClockTime { hour, minute, second: 0 },
    }
}

#[test]
fn reads_a_summer_session() {
    let interval = read("Mo, 21.10.2019 10:00 - 13:00").unwrap();
    assert_eq!(interval.local().start, at(2019, 10, 21, 10, 0));
    assert_eq!(interval.local().end, at(2019, 10, 21, 13, 0));
    assert_eq!(interval.utc().start, at(2019, 10, 21, 8, 0));
    assert_eq!(interval.utc().end, at(2019, 10, 21, 11, 0));
}

#[test]
fn reads_a_winter_session() {
    let interval = read("Mo, 16.12.2019 10:15 - 11:45").unwrap();
    assert_eq!(interval.local().start, at(2019, 12, 16, 10, 15));
    assert_eq!(interval.local().end, at(2019, 12, 16, 11, 45));
    assert_eq!(interval.utc().start, at(2019, 12, 16, 9, 15));
    assert_eq!(interval.utc().end, at(2019, 12, 16, 10, 45));
}

#[test]
fn utc_start_may_lie_on_the_day_before() {
    let interval = read("Mi, 01.07.2020 00:30 - 02:00").unwrap();
    assert_eq!(interval.local().start, at(2020, 7, 1, 0, 30));
    assert_eq!(interval.utc().start, at(2020, 6, 30, 22, 30));
    assert_eq!(interval.utc().end, at(2020, 7, 1, 0, 0));
}

#[test]
fn utc_start_may_lie_in_the_year_before() {
    let interval = read("Mi, 01.01.2020 00:30 - 02:00").unwrap();
    assert_eq!(interval.utc().start, at(2019, 12, 31, 23, 30));
    assert_eq!(interval.utc().end, at(2020, 1, 1, 1, 0));
}

#[test]
fn does_not_look_at_the_first_four_characters() {
    let expected = read("Mo, 21.10.2019 10:00 - 13:00").unwrap();
    assert_eq!(read("Fr, 21.10.2019 10:00 - 13:00"), Ok(expected));
    assert_eq!(read("????21.10.2019 10:00 - 13:00"), Ok(expected));
    assert_eq!(read("    21.10.2019 10:00 - 13:00"), Ok(expected));
    assert_eq!(read("äöü,21.10.2019 10:00 - 13:00"), Ok(expected));
}

#[test]
fn does_not_look_at_the_separator() {
    let expected = read("Mo, 21.10.2019 10:00 - 13:00").unwrap();
    assert_eq!(read("Mo, 21.10.2019 10:00 bis 13:00"), Ok(expected));
    assert_eq!(read("Mo, 21.10.2019 10:00  13:00"), Ok(expected));
}

#[test]
fn reads_numbers_with_one_digit() {
    let interval = read("Mi, 1.4.2020 9:05 - 10:00").unwrap();
    assert_eq!(interval.local().start, at(2020, 4, 1, 9, 5));
    assert_eq!(interval.local().end, at(2020, 4, 1, 10, 0));
}

#[test]
fn reads_the_leap_day() {
    let interval = read("Sa, 29.02.2020 10:00 - 12:00").unwrap();
    assert_eq!(interval.local().start, at(2020, 2, 29, 10, 0));
    assert_eq!(read("Fr, 29.02.2019 10:00 - 12:00"), Err(TimespanError::InvalidDate));
    assert_eq!(read("Do, 29.02.1900 10:00 - 12:00"), Err(TimespanError::InvalidDate));
    assert!(read("Di, 29.02.2000 10:00 - 12:00").is_ok());
}

#[test]
fn refuses_a_wrong_number_of_fields() {
    assert_eq!(read(""), Err(TimespanError::FieldCount));
    assert_eq!(read("Mo"), Err(TimespanError::FieldCount));
    assert_eq!(read("Mo, "), Err(TimespanError::FieldCount));
    assert_eq!(read("Mo, 21.10.2019"), Err(TimespanError::FieldCount));
    assert_eq!(read("Mo, 21.10.2019 10:00 - "), Err(TimespanError::InvalidTime));
    assert_eq!(read("Mo, 21.10.2019 10:00 -"), Err(TimespanError::FieldCount));
    assert_eq!(read("Mo, 21.10.2019 10:00 13:00"), Err(TimespanError::FieldCount));
    assert_eq!(read("Mo, 21.10.2019 10:00 - 13:00 "), Err(TimespanError::FieldCount));
    assert_eq!(read("Mo, 21.10.2019 10:00 - 13:00 Uhr"), Err(TimespanError::FieldCount));
    assert_eq!(read("Mo,  21.10.2019 10:00 - 13:00"), Err(TimespanError::FieldCount));
    assert_eq!(read("Mo, 21.10.2019  10:00 - 13:00"), Err(TimespanError::FieldCount));
}

#[test]
fn refuses_a_date_that_the_calendar_does_not_have() {
    assert_eq!(read("Mi, 31.04.2019 10:00 - 13:00"), Err(TimespanError::InvalidDate));
    assert_eq!(read("Mi, 00.04.2019 10:00 - 13:00"), Err(TimespanError::InvalidDate));
    assert_eq!(read("Mi, 32.01.2019 10:00 - 13:00"), Err(TimespanError::InvalidDate));
    assert_eq!(read("Mi, 01.13.2019 10:00 - 13:00"), Err(TimespanError::InvalidDate));
    assert_eq!(read("Mi, 01.00.2019 10:00 - 13:00"), Err(TimespanError::InvalidDate));
    assert_eq!(read("Mi, 2019-10-21 10:00 - 13:00"), Err(TimespanError::InvalidDate));
    assert_eq!(read("Mi, 21.10. 10:00 - 13:00"), Err(TimespanError::InvalidDate));
    assert_eq!(read("Mi, heute 10:00 - 13:00"), Err(TimespanError::InvalidDate));
    assert_eq!(read("Mi,  10:00 - 13:00"), Err(TimespanError::InvalidDate));
}

#[test]
fn refuses_a_time_that_no_clock_shows() {
    assert_eq!(read("Mo, 21.10.2019 24:00 - 13:00"), Err(TimespanError::InvalidTime));
    assert_eq!(read("Mo, 21.10.2019 10:60 - 13:00"), Err(TimespanError::InvalidTime));
    assert_eq!(read("Mo, 21.10.2019 10:00 - 25:00"), Err(TimespanError::InvalidTime));
    assert_eq!(read("Mo, 21.10.2019 10:00 - 13:99"), Err(TimespanError::InvalidTime));
    assert_eq!(read("Mo, 21.10.2019 10 - 13"), Err(TimespanError::InvalidTime));
    assert_eq!(read("Mo, 21.10.2019 10:00:00 - 13:00"), Err(TimespanError::InvalidTime));
    assert_eq!(read("Mo, 21.10.2019 früh - spät"), Err(TimespanError::InvalidTime));
}

#[test]
fn asks_for_the_date_before_the_times() {
    assert_eq!(read("Mi, 31.04.2019 25:00 - 26:00"), Err(TimespanError::InvalidDate));
    assert_eq!(read("Mi, 31.04.2019 13:00 - 10:00"), Err(TimespanError::InvalidDate));
    assert_eq!(read("Mo, 21.10.2019 25:00 - 10:00"), Err(TimespanError::InvalidTime));
}

#[test]
fn refuses_a_session_that_does_not_end_after_it_starts() {
    assert_eq!(read("Mo, 21.10.2019 13:00 - 10:00"), Err(TimespanError::NonPositiveDuration));
    assert_eq!(read("Mo, 21.10.2019 10:00 - 10:00"), Err(TimespanError::NonPositiveDuration));
    assert_eq!(read("Mo, 21.10.2019 10:01 - 10:00"), Err(TimespanError::NonPositiveDuration));
    assert!(read("Mo, 21.10.2019 10:00 - 10:01").is_ok());
}

#[test]
fn refuses_a_time_that_clocks_skip() {
    // Clocks in Berlin went from 02:00 straight to 03:00 on 31 March 2019.
    assert_eq!(read("So, 31.03.2019 02:30 - 04:00"), Err(TimespanError::LocalTimeUnresolved));
    assert_eq!(read("So, 31.03.2019 01:00 - 02:30"), Err(TimespanError::LocalTimeUnresolved));
    assert_eq!(read("So, 31.03.2019 02:00 - 02:59"), Err(TimespanError::LocalTimeUnresolved));
    let around = read("So, 31.03.2019 01:59 - 03:00").unwrap();
    assert_eq!(around.utc().start, at(2019, 3, 31, 0, 59));
    assert_eq!(around.utc().end, at(2019, 3, 31, 1, 0));
}

#[test]
fn refuses_a_time_that_clocks_repeat() {
    // Clocks in Berlin went from 03:00 back to 02:00 on 27 October 2019.
    assert_eq!(read("So, 27.10.2019 02:30 - 04:00"), Err(TimespanError::LocalTimeUnresolved));
    assert_eq!(read("So, 27.10.2019 01:00 - 02:30"), Err(TimespanError::LocalTimeUnresolved));
    assert_eq!(read("So, 27.10.2019 02:00 - 02:59"), Err(TimespanError::LocalTimeUnresolved));
    let around = read("So, 27.10.2019 01:59 - 03:00").unwrap();
    assert_eq!(around.utc().start, at(2019, 10, 26, 23, 59));
    assert_eq!(around.utc().end, at(2019, 10, 27, 2, 0));
}

#[test]
fn reads_one_line_to_one_interval() {
    assert_eq!(read("Mo, 21.10.2019 10:00 - 13:00"), read("Mo, 21.10.2019 10:00 - 13:00"));
    assert_eq!(read("So, 27.10.2019 02:30 - 04:00"), read("So, 27.10.2019 02:30 - 04:00"));
}

#[test]
fn utc_ends_are_those_that_the_zone_gives() {
    let lines = [
        ("Mo, 21.10.2019 10:00 - 13:00", (2019, 10, 21), (10, 0), (13, 0)),
        ("Fr, 03.01.2020 08:15 - 09:45", (2020, 1, 3), (8, 15), (9, 45)),
        ("Di, 30.06.1981 23:00 - 23:59", (1981, 6, 30), (23, 0), (23, 59)),
    ];
    for (line, (year, month, day), (h1, m1), (h2, m2)) in lines {
        let interval = read(line).unwrap();
        let day = NaiveDate::from_ymd_opt(year, month, day).unwrap();
        let pairs = [
            (interval.utc().start, day.and_hms_opt(h1, m1, 0).unwrap()),
            (interval.utc().end, day.and_hms_opt(h2, m2, 0).unwrap()),
        ];
        for (utc, local) in pairs {
            let zoned = chrono_tz::Europe::Berlin.from_local_datetime(&local).single().unwrap();
            let expected = zoned.naive_utc();
            assert_eq!(utc.date.year, expected.year());
            assert_eq!(utc.date.month, expected.month());
            assert_eq!(utc.date.day, expected.day());
            assert_eq!(utc.time.hour, expected.hour());
            assert_eq!(utc.time.minute, expected.minute());
            assert_eq!(utc.time.second, expected.second());
            // Read back in the zone, the instant shows the time that the line holds.
            assert_eq!(zoned.naive_local(), local);
        }
    }
}

#[test]
fn reads_years_with_a_sign() {
    let interval = read("Mo, 29.02.-0004 10:00 - 11:00").unwrap();
    assert_eq!(interval.local().start.date, CivilDate { year: -4, month: 2, day: 29 });
    let interval = read("Mo, 01.03.+12345 10:00 - 11:00").unwrap();
    assert_eq!(interval.local().start.date, CivilDate { year: 12345, month: 3, day: 1 });
    assert_eq!(read("Mo, 29.02.-0001 10:00 - 11:00"), Err(TimespanError::InvalidDate));
    assert_eq!(read("Mo, 01.03.12345 10:00 - 11:00"), Err(TimespanError::InvalidDate));
}

#[test]
fn reads_dates_as_far_as_the_calendar_goes() {
    let last = read("Mo, 31.12.+262142 10:00 - 11:00").unwrap();
    assert_eq!(last.local().end, at(262142, 12, 31, 11, 0));
    assert_eq!(last.utc().start.date.year, 262142);
    assert_eq!(read("Mo, 01.01.+262143 10:00 - 11:00"), Err(TimespanError::InvalidDate));
    let first = read("Mo, 01.01.-262143 10:00 - 11:00").unwrap();
    assert_eq!(first.local().start, at(-262143, 1, 1, 10, 0));
    assert_eq!(first.utc().start.date.year, -262143);
    assert_eq!(read("Mo, 31.12.-262144 10:00 - 11:00"), Err(TimespanError::InvalidDate));
    // The first hour of the first year lies in UTC in the year before.
    assert_eq!(
        read("Mo, 01.01.-262143 00:00 - 00:30"),
        Err(TimespanError::LocalTimeUnresolved)
    );
}

#[test]
fn has_the_years_that_chrono_has() {
    assert_eq!(NaiveDate::MIN.year(), MIN_YEAR);
    assert_eq!(NaiveDate::MAX.year(), MAX_YEAR);
    assert!(NaiveDate::from_ymd_opt(MIN_YEAR, 1, 1).is_some());
    assert!(NaiveDate::from_ymd_opt(MIN_YEAR - 1, 12, 31).is_none());
    assert!(NaiveDate::from_ymd_opt(MAX_YEAR, 12, 31).is_some());
    assert!(NaiveDate::from_ymd_opt(MAX_YEAR + 1, 1, 1).is_none());
}

#[test]
fn reads_a_session_on_every_day_of_two_years() {
    let mut day = NaiveDate::from_ymd_opt(2019, 1, 1).unwrap();
    let last = NaiveDate::from_ymd_opt(2020, 12, 31).unwrap();
    while day <= last {
        let line = format!(
            "Xx, {:02}.{:02}.{:04} 08:15 - 09:45",
            day.day(),
            day.month(),
            day.year()
        );
        let interval = read(&line).unwrap();
        assert_eq!(interval.local().start, at(day.year(), day.month(), day.day(), 8, 15));
        assert_eq!(interval.local().end, at(day.year(), day.month(), day.day(), 9, 45));
        day = day.succ_opt().unwrap();
    }
}
