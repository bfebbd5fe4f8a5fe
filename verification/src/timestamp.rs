//! Period-start timestamps: a calendar date and a time of day, held as plain
//! numbers and validated by chrono.

use vstd::prelude::*;

verus! {

/// A calendar date and a time of day, without a time zone.
///
/// The fields are ordered from the most to the least significant, so the
/// derived order is the chronological one.
#[derive(Clone, Copy, Debug, PartialEq, Eq, Structural, PartialOrd, Ord, Hash)]
pub struct Timestamp {
    pub year: i32,
    /// Calendar month, 1 to 12.
    pub month: u32,
    /// Day of the month, from 1.
    pub day: u32,
    pub hour: u32,
    pub minute: u32,
    pub second: u32,
    /// Nanoseconds; a leap second is counted as a billion and more in second 59.
    pub nanosecond: u32,
}

/// Leap years of the proleptic Gregorian calendar.
pub open spec fn spec_is_leap_year(year: int) -> bool {
    year % 4 == 0 && (year % 100 != 0 || year % 400 == 0)
}

/// Number of days of a calendar month; 0 for a month outside 1 to 12.
pub open spec fn spec_days_in_month(year: int, month: int) -> int {
    if month == 4 || month == 6 || month == 9 || month == 11 {
        30
    } else if month == 2 {
        if spec_is_leap_year(year) {
            29
        } else {
            28
        }
    } else if 1 <= month <= 12 {
        31
    } else {
        0
    }
}

/// The dates that chrono can represent: an existing day of the proleptic
/// Gregorian calendar in the years -262143 to 262142.
pub open spec fn spec_valid_date(year: int, month: int, day: int) -> bool {
    &&& -262143 <= year <= 262142
    &&& 1 <= month <= 12
    &&& 1 <= day <= spec_days_in_month(year, month)
}

/// The times of day without a fraction: hour below 24, minute and second below 60.
pub open spec fn spec_valid_time(hour: int, minute: int, second: int) -> bool {
    hour < 24 && minute < 60 && second < 60
}

/// Asks `chrono::NaiveDate::from_ymd_opt` whether the date exists and reads
/// year, month and day back from the date it made. Trusted: chrono returns a
/// date exactly for the existing days of the proleptic Gregorian calendar in
/// the years it can hold, and that date has the numbers it was made from.
#[verifier::external_body]
fn calendar_date(year: i32, month: u32, day: u32) -> (date: Option<(i32, u32, u32)>)
    ensures
        date == if spec_valid_date(year as int, month as int, day as int) {
            Some((year, month, day))
        } else {
            None
        },
{
    chrono::NaiveDate::from_ymd_opt(year, month, day).map(
        |d| (chrono::Datelike::year(&d), chrono::Datelike::month(&d), chrono::Datelike::day(&d)),
    )
}

/// Asks `chrono::NaiveTime::from_hms_opt` whether the time of day exists and
/// reads hour, minute and second back from the time it made. Trusted: chrono
/// returns a time exactly when the hour is below 24 and minute and second are
/// below 60, and that time has the numbers it was made from.
#[verifier::external_body]
fn clock_time(hour: u32, minute: u32, second: u32) -> (time: Option<(u32, u32, u32)>)
    ensures
        time == if spec_valid_time(hour as int, minute as int, second as int) {
            Some((hour, minute, second))
        } else {
            None
        },
{
    chrono::NaiveTime::from_hms_opt(hour, minute, second).map(
        |t| (chrono::Timelike::hour(&t), chrono::Timelike::minute(&t), chrono::Timelike::second(&t)),
    )
}

/// Midnight on the first of January of the year 0.
pub open spec fn spec_zero_timestamp() -> Timestamp {
    Timestamp { year: 0, month: 1, day: 1, hour: 0, minute: 0, second: 0, nanosecond: 0 }
}

/// The timestamp of the full hour `hour` on the given day, where both exist.
pub open spec fn spec_at_hour(year: i32, month: u32, day: u32, hour: u32) -> Option<Timestamp> {
    if spec_valid_date(year as int, month as int, day as int) && hour < 24 {
        Some(Timestamp { year, month, day, hour, minute: 0, second: 0, nanosecond: 0 })
    } else {
        None
    }
}

impl Timestamp {
    /// Whether the fields name an existing date and time of day.
    pub open spec fn spec_is_valid(&self) -> bool {
        &&& spec_valid_date(self.year as int, self.month as int, self.day as int)
        &&& spec_valid_time(self.hour as int, self.minute as int, self.second as int)
        &&& self.nanosecond < 2_000_000_000
        &&& (self.nanosecond >= 1_000_000_000 ==> self.second == 59)
    }

    /// Chronological order: `self` is strictly earlier than `other`.
    pub open spec fn spec_before(&self, other: &Timestamp) -> bool {
        self.year < other.year || (self.year == other.year && (self.month < other.month || (
        self.month == other.month && (self.day < other.day || (self.day == other.day && (self.hour
            < other.hour || (self.hour == other.hour && (self.minute < other.minute || (self.minute
            == other.minute && (self.second < other.second || (self.second == other.second
            && self.nanosecond < other.nanosecond)))))))))))
    }

    /// The timestamp of the full hour `hour` on the given day, or `None`
    /// where the day or the hour does not exist.
    pub fn at_hour(year: i32, month: u32, day: u32, hour: u32) -> (ts: Option<Timestamp>)
        ensures
            ts == spec_at_hour(year, month, day, hour),
            ts matches Some(t) ==> t.spec_is_valid(),
    {
        match calendar_date(year, month, day) {
            Some((y, m, d)) => match clock_time(hour, 0, 0) {
                Some((h, minute, second)) => Some(
                    Timestamp { year: y, month: m, day: d, hour: h, minute, second, nanosecond: 0 },
                ),
                None => None,
            },
            None => None,
        }
    }

    /// Whether `self` is strictly earlier than `other`.
    pub fn before(&self, other: &Timestamp) -> (earlier: bool)
        ensures
            earlier == self.spec_before(other),
    {
        if self.year != other.year {
            self.year < other.year
        } else if self.month != other.month {
            self.month < other.month
        } else if self.day != other.day {
            self.day < other.day
        } else if self.hour != other.hour {
            self.hour < other.hour
        } else if self.minute != other.minute {
            self.minute < other.minute
        } else if self.second != other.second {
            self.second < other.second
        } else {
            self.nanosecond < other.nanosecond
        }
    }
}

/// The timestamp that stands for "none given": 0000-01-01T00:00:00.
pub fn zero_timestamp() -> (ts: Timestamp)
    ensures
        ts == spec_zero_timestamp(),
        ts.spec_is_valid(),
{
    match Timestamp::at_hour(0, 1, 1, 0) {
        Some(ts) => ts,
        None => Timestamp { year: 0, month: 1, day: 1, hour: 0, minute: 0, second: 0, nanosecond: 0 },
    }
}

} // verus!
