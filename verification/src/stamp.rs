//! Civil date and time of day, to the second, and its text.

use vstd::prelude::*;
use crate::text::digits;

verus! {

/// The first year a date can lie in.
pub const MIN_YEAR: i32 = -262143;

/// The last year a date can lie in.
pub const MAX_YEAR: i32 = 262142;

/// Whether `year` has a 29th of February, by the Gregorian rule carried
/// back and forward over all years.
pub open spec fn is_leap_year(year: int) -> bool {
    year % 4 == 0 && (year % 100 != 0 || year % 400 == 0)
}

/// The number of days of a month.
pub open spec fn days_in_month(year: int, month: int) -> int {
    if month == 2 {
        if is_leap_year(year) {
            29
        } else {
            28
        }
    } else if month == 4 || month == 6 || month == 9 || month == 11 {
        30
    } else {
        31
    }
}

/// A date and a time of day as six numbers: what a `Timestamp` stands for.
pub struct Civil {
    pub year: int,
    pub month: int,
    pub day: int,
    pub hour: int,
    pub minute: int,
    pub second: int,
}

/// The six numbers as one value.
pub open spec fn civil(year: int, month: int, day: int, hour: int, minute: int, second: int)
    -> Civil {
    Civil { year, month, day, hour, minute, second }
}

impl Civil {
    /// Whether the numbers name a day of the calendar and a second of that
    /// day.
    pub open spec fn is_calendar(self) -> bool {
        &&& MIN_YEAR <= self.year <= MAX_YEAR
        &&& 1 <= self.month <= 12
        &&& 1 <= self.day <= days_in_month(self.year, self.month)
        &&& 0 <= self.hour <= 23
        &&& 0 <= self.minute <= 59
        &&& 0 <= self.second <= 59
    }

    /// Whether the numbers lie where a clock's reading has them: the month
    /// from 1 to 12, the day from 1 to 31, the hour up to 23, minute and
    /// second up to 59. The year is free, and the day need not exist in its
    /// month.
    pub open spec fn is_reading(self) -> bool {
        &&& 1 <= self.month <= 12
        &&& 1 <= self.day <= 31
        &&& 0 <= self.hour <= 23
        &&& 0 <= self.minute <= 59
        &&& 0 <= self.second <= 59
    }

    /// Whether `moment` is what a clock that reads these numbers gives: the
    /// moment with these numbers where they name a day of the calendar, and
    /// none where they do not.
    pub open spec fn read_as(self, moment: Option<Timestamp>) -> bool {
        &&& self.is_reading()
        &&& moment is Some <==> self.is_calendar()
        &&& moment is Some ==> moment->0@ == self
    }

    /// The year: four digits from 0 to 9999; outside that a sign, then at
    /// least four digits.
    pub open spec fn year_text(self) -> Seq<char> {
        if self.year < 0 {
            seq!['-'] + digits((-self.year) as nat, 4)
        } else if self.year > 9999 {
            seq!['+'] + digits(self.year as nat, 4)
        } else {
            digits(self.year as nat, 4)
        }
    }

    /// The text of the moment: `YYYY-MM-DD HH:MM:SS`.
    pub open spec fn text(self) -> Seq<char> {
        self.year_text() + seq!['-'] + digits(self.month as nat, 2) + seq!['-'] + digits(
            self.day as nat,
            2,
        ) + seq![' '] + digits(self.hour as nat, 2) + seq![':'] + digits(self.minute as nat, 2)
            + seq![':'] + digits(self.second as nat, 2)
    }
}

/// The pattern that a moment is written by: year, month and day with
/// hyphens between them, a space, then hour, minute and second with colons
/// between them.
pub open spec fn stamp_pattern() -> Seq<char> {
    "%Y-%m-%d %H:%M:%S"@
}

/// A moment of local time, to the second. Every value is a day of the
/// calendar and a second of that day.
#[derive(Debug, Clone, Copy)]
pub struct Timestamp {
    year: i32,
    month: u32,
    day: u32,
    hour: u32,
    minute: u32,
    second: u32,
}

impl View for Timestamp {
    type V = Civil;

    closed spec fn view(&self) -> Civil {
        civil(
            self.year as int,
            self.month as int,
            self.day as int,
            self.hour as int,
            self.minute as int,
            self.second as int,
        )
    }
}

fn leap_year(year: i32) -> (leap: bool)
    requires
        MIN_YEAR <= year <= MAX_YEAR,
    ensures
        leap == is_leap_year(year as int),
{
    // 262400 is a multiple of 400, so the shift keeps every remainder.
    let shifted: i32 = year + 262400;
    shifted % 4 == 0 && (shifted % 100 != 0 || shifted % 400 == 0)
}

fn month_length(year: i32, month: u32) -> (days: u32)
    requires
        MIN_YEAR <= year <= MAX_YEAR,
    ensures
        days == days_in_month(year as int, month as int),
{
    if month == 2 {
        if leap_year(year) {
            29
        } else {
            28
        }
    } else if month == 4 || month == 6 || month == 9 || month == 11 {
        30
    } else {
        31
    }
}

impl Timestamp {
    #[verifier::type_invariant]
    spec fn on_calendar(self) -> bool {
        self@.is_calendar()
    }

    /// The moment with these numbers, where they name one.
    pub fn new(year: i32, month: u32, day: u32, hour: u32, minute: u32, second: u32) -> (t: Option<
        Timestamp,
    >)
        ensures
            t is Some <==> civil(
                year as int,
                month as int,
                day as int,
                hour as int,
                minute as int,
                second as int,
            ).is_calendar(),
            t is Some ==> t->0@ == civil(
                year as int,
                month as int,
                day as int,
                hour as int,
                minute as int,
                second as int,
            ),
    {
        if year < MIN_YEAR || year > MAX_YEAR || month < 1 || month > 12 {
            return None;
        }
        if day < 1 || day > month_length(year, month) {
            return None;
        }
        if hour > 23 || minute > 59 || second > 59 {
            return None;
        }
        Some(Timestamp { year, month, day, hour, minute, second })
    }

    /// The local time that the clock shows: the moment with the numbers of
    /// the clock's reading, and none where that reading is no day of the
    /// calendar.
    pub fn now() -> (t: Option<Timestamp>)
        ensures
            t is Some ==> t->0@.is_calendar(),
            exists|reading: Civil| #[trigger] reading.read_as(t),
    {
        let (year, month, day, hour, minute, second) = clock_now();
        let t = Timestamp::new(year, month, day, hour, minute, second);
        assert(civil(
            year as int,
            month as int,
            day as int,
            hour as int,
            minute as int,
            second as int,
        ).read_as(t));
        t
    }

    /// The text of the moment, as it stands on the console and in the file.
    pub fn text(&self) -> (s: String)
        ensures
            s@ == self@.text(),
    {
        proof {
            use_type_invariant(self);
        }
        format_civil(
            self.year,
            self.month,
            self.day,
            self.hour,
            self.minute,
            self.second,
            "%Y-%m-%d %H:%M:%S",
        )
    }
}

/// `chrono::Local::now()`, read through `chrono::Datelike` and
/// `chrono::Timelike`: the local date and time of day that the clock shows.
/// Each number lies in the range that chrono documents for it; which day it
/// is depends on the clock and the time zone.
#[verifier::external_body]
fn clock_now() -> (reading: (i32, u32, u32, u32, u32, u32))
    ensures
        1 <= reading.1 <= 12,
        1 <= reading.2 <= 31,
        reading.3 <= 23,
        reading.4 <= 59,
        reading.5 <= 59,
{
    let now = chrono::offset::Local::now();
    (
        chrono::Datelike::year(&now),
        chrono::Datelike::month(&now),
        chrono::Datelike::day(&now),
        chrono::Timelike::hour(&now),
        chrono::Timelike::minute(&now),
        chrono::Timelike::second(&now),
    )
}

/// `chrono::NaiveDate::from_ymd_opt` and `and_hms_opt`, then
/// `chrono::NaiveDateTime::format` with the pattern `%Y-%m-%d %H:%M:%S`: on
/// a day of the calendar both constructors succeed, and the text is the
/// year (zero-padded to four digits; signed outside 0 to 9999), then month,
/// day, hour, minute and second with two digits each, with the hyphens, the
/// space and the colons of the pattern between them.
#[verifier::external_body]
fn format_civil(
    year: i32,
    month: u32,
    day: u32,
    hour: u32,
    minute: u32,
    second: u32,
    pattern: &str,
) -> (s: String)
    requires
        pattern@ == stamp_pattern(),
        civil(
            year as int,
            month as int,
            day as int,
            hour as int,
            minute as int,
            second as int,
        ).is_calendar(),
    ensures
        s@ == civil(
            year as int,
            month as int,
            day as int,
            hour as int,
            minute as int,
            second as int,
        ).text(),
{
    let date = chrono::NaiveDate::from_ymd_opt(year, month, day).unwrap();
    let moment = date.and_hms_opt(hour, minute, second).unwrap();
    moment.format(pattern).to_string()
}

} // verus!
