use service_log::Timestamp;

fn text_of(year: i32, month: u32, day: u32, hour: u32, minute: u32, second: u32) -> String {
    Timestamp::new(year, month, day, hour, minute, second).unwrap().text()
}

#[test]
fn a_moment_reads_year_month_day_hour_minute_second() {
    assert_eq!(text_of(2024, 1, 2, 3, 4, 5), "2024-01-02 03:04:05");
    assert_eq!(text_of(1999, 12, 31, 23, 59, 59), "1999-12-31 23:59:59");
    assert_eq!(text_of(2000, 2, 29, 0, 0, 0), "2000-02-29 00:00:00");
}

#[test]
fn a_short_year_is_padded_to_four_digits() {
    assert_eq!(text_of(0, 1, 1, 0, 0, 0), "0000-01-01 00:00:00");
    assert_eq!(text_of(5, 6, 7, 8, 9, 10), "0005-06-07 08:09:10");
    assert_eq!(text_of(999, 10, 11, 12, 13, 14), "0999-10-11 12:13:14");
    assert_eq!(text_of(1000, 1, 1, 0, 0, 0), "1000-01-01 00:00:00");
    assert_eq!(text_of(9999, 12, 31, 23, 59, 59), "9999-12-31 23:59:59");
}

#[test]
fn a_year_outside_four_digits_carries_its_sign() {
    assert_eq!(text_of(10000, 1, 1, 0, 0, 0), "+10000-01-01 00:00:00");
    assert_eq!(text_of(12345, 6, 7, 8, 9, 10), "+12345-06-07 08:09:10");
    assert_eq!(text_of(262142, 12, 31, 23, 59, 59), "+262142-12-31 23:59:59");
    assert_eq!(text_of(-1, 1, 1, 0, 0, 0), "-0001-01-01 00:00:00");
    assert_eq!(text_of(-5, 6, 7, 8, 9, 10), "-0005-06-07 08:09:10");
    assert_eq!(text_of(-12345, 6, 7, 8, 9, 10), "-12345-06-07 08:09:10");
    assert_eq!(text_of(-262143, 1, 1, 0, 0, 0), "-262143-01-01 00:00:00");
}

#[test]
fn only_days_of_the_calendar_are_moments() {
    assert!(Timestamp::new(2023, 2, 28, 0, 0, 0).is_some());
    assert!(Timestamp::new(2023, 2, 29, 0, 0, 0).is_none());
    assert!(Timestamp::new(2024, 2, 29, 0, 0, 0).is_some());
    assert!(Timestamp::new(2024, 2, 30, 0, 0, 0).is_none());
    assert!(Timestamp::new(1900, 2, 29, 0, 0, 0).is_none());
    assert!(Timestamp::new(2000, 2, 29, 0, 0, 0).is_some());
    assert!(Timestamp::new(-4, 2, 29, 0, 0, 0).is_some());
    assert!(Timestamp::new(-100, 2, 29, 0, 0, 0).is_none());
    assert!(Timestamp::new(-400, 2, 29, 0, 0, 0).is_some());
    assert!(Timestamp::new(2024, 4, 30, 0, 0, 0).is_some());
    assert!(Timestamp::new(2024, 4, 31, 0, 0, 0).is_none());
    assert!(Timestamp::new(2024, 6, 31, 0, 0, 0).is_none());
    assert!(Timestamp::new(2024, 9, 31, 0, 0, 0).is_none());
    assert!(Timestamp::new(2024, 11, 31, 0, 0, 0).is_none());
    assert!(Timestamp::new(2024, 12, 31, 0, 0, 0).is_some());
    assert!(Timestamp::new(2024, 1, 32, 0, 0, 0).is_none());
    assert!(Timestamp::new(2024, 0, 1, 0, 0, 0).is_none());
    assert!(Timestamp::new(2024, 13, 1, 0, 0, 0).is_none());
    assert!(Timestamp::new(2024, 1, 0, 0, 0, 0).is_none());
}

#[test]
fn only_seconds_of_the_day_are_moments() {
    assert!(Timestamp::new(2024, 1, 1, 23, 59, 59).is_some());
    assert!(Timestamp::new(2024, 1, 1, 24, 0, 0).is_none());
    assert!(Timestamp::new(2024, 1, 1, 0, 60, 0).is_none());
    assert!(Timestamp::new(2024, 1, 1, 0, 0, 60).is_none());
}

#[test]
fn the_years_end_where_the_calendar_ends() {
    assert!(Timestamp::new(262142, 12, 31, 23, 59, 59).is_some());
    assert!(Timestamp::new(262143, 1, 1, 0, 0, 0).is_none());
    assert!(Timestamp::new(-262143, 1, 1, 0, 0, 0).is_some());
    assert!(Timestamp::new(-262144, 12, 31, 0, 0, 0).is_none());
    assert!(Timestamp::new(i32::MAX, 1, 1, 0, 0, 0).is_none());
    assert!(Timestamp::new(i32::MIN, 1, 1, 0, 0, 0).is_none());
}

#[test]
fn every_day_that_is_a_moment_has_a_text() {
    let lengths = [31u32, 28, 31, 30, 31, 30, 31, 31, 30, 31, 30, 31];
    for year in [1999i32, 2000, 2023, 2024, 2100] {
        for month in 1u32..=12 {
            let leap = year % 4 == 0 && (year % 100 != 0 || year % 400 == 0);
            let mut last = lengths[(month - 1) as usize];
            if month == 2 && leap {
                last = 29;
            }
            for day in 1u32..=31 {
                let moment = Timestamp::new(year, month, day, 12, 30, 45);
                assert_eq!(moment.is_some(), day <= last);
                if let Some(moment) = moment {
                    let expected = format!("{:04}-{:02}-{:02} 12:30:45", year, month, day);
                    assert_eq!(moment.text(), expected);
                }
            }
        }
    }
}

#[test]
fn the_clock_shows_a_moment() {
    let now = Timestamp::now().expect("the clock shows a day of the calendar");
    let text = now.text();
    assert_eq!(text.len(), 19);
    let marks: Vec<char> = text.chars().collect();
    assert_eq!(marks[4], '-');
    assert_eq!(marks[7], '-');
    assert_eq!(marks[10], ' ');
    assert_eq!(marks[13], ':');
    assert_eq!(marks[16], ':');
    for (at, c) in marks.iter().enumerate() {
        if ![4, 7, 10, 13, 16].contains(&at) {
            assert!(c.is_ascii_digit());
        }
    }
}
