use vstd::prelude::*;

use crate::error::TimeError;

verus! {

/// The first year that a calendar date may have.
pub const MIN_YEAR: i32 = -262_143;

/// The last year that a calendar date may have.
pub const MAX_YEAR: i32 = 262_142;

/// The day number, counted from 0001-01-01 as day 1, of 1970-01-01.
pub const UNIX_EPOCH_DAY: i64 = 719_163;

/// A leap year of the proleptic Gregorian calendar (year 0 is 1 BCE).
pub open spec fn is_leap_year(year: int) -> bool {
    year % 4 == 0 && (year % 100 != 0 || year % 400 == 0)
}

/// The number of days in a month (1 to 12) of a year.
pub open spec fn days_in_month(year: int, month: int) -> int {
    if month == 2 {
        if is_leap_year(year) {
            29
        } else {
            28
        }
    } else if month == 4 || month == 6 || month == 9 || month == 11 {
        30
    } else {
        31
    }
}

/// The number of days of a year that come before the first of a month (1 to 12).
pub open spec fn days_before_month(year: int, month: int) -> int {
    let common: int = if month == 1 {
        0
    } else if month == 2 {
        31
    } else if month == 3 {
        59
    } else if month == 4 {
        90
    } else if month == 5 {
        120
    } else if month == 6 {
        151
    } else if month == 7 {
        181
    } else if month == 8 {
        212
    } else if month == 9 {
        243
    } else if month == 10 {
        273
    } else if month == 11 {
        304
    } else {
        334
    };
    if month > 2 && is_leap_year(year) {
        common + 1
    } else {
        common
    }
}

/// The day number of a date, counted from 0001-01-01 as day 1.
pub open spec fn days_from_ce(year: int, month: int, day: int) -> int {
    let before = year - 1;
    365 * before + before / 4 - before / 100 + before / 400 + days_before_month(year, month) + day
}

/// A date that the calendar has and that lies within the supported years.
pub open spec fn is_valid_date(year: int, month: int, day: int) -> bool {
    &&& MIN_YEAR <= year <= MAX_YEAR
    &&& 1 <= month <= 12
    &&& 1 <= day <= days_in_month(year, month)
}

/// A valid date together with a valid time of day (no leap second).
pub open spec fn is_valid_date_time(
    year: int,
    month: int,
    day: int,
    hour: int,
    minute: int,
    second: int,
) -> bool {
    &&& is_valid_date(year, month, day)
    &&& 0 <= hour < 24
    &&& 0 <= minute < 60
    &&& 0 <= second < 60
}

/// Seconds since 1970-01-01 00:00:00 UTC of a UTC date and time, leap seconds not counted.
pub open spec fn timestamp_of(
    year: int,
    month: int,
    day: int,
    hour: int,
    minute: int,
    second: int,
) -> int {
    (days_from_ce(year, month, day) - UNIX_EPOCH_DAY) * 86_400 + hour * 3_600 + minute * 60
        + second
}

/// The day of the week of a date, counted from Sunday as 0 (1970-01-01 was a Thursday).
pub open spec fn weekday_of(year: int, month: int, day: int) -> int {
    (days_from_ce(year, month, day) - UNIX_EPOCH_DAY + 4) % 7
}

/// Month of the year.
#[derive(Debug, Clone, Copy, PartialEq, Eq, Structural)]
pub enum Month {
    /// January
    Jan,
    /// February
    Feb,
    /// March
    Mar,
    /// April
    Apr,
    /// May
    May,
    /// June
    Jun,
    /// July
    Jul,
    /// August
    Aug,
    /// September
    Sep,
    /// October
    Oct,
    /// November
    Nov,
    /// December
    Dec,
}

impl Month {
    /// The month's number, January being 1.
    pub open spec fn spec_number(self) -> int {
        match self {
            Month::Jan => 1,
            Month::Feb => 2,
            Month::Mar => 3,
            Month::Apr => 4,
            Month::May => 5,
            Month::Jun => 6,
            Month::Jul => 7,
            Month::Aug => 8,
            Month::Sep => 9,
            Month::Oct => 10,
            Month::Nov => 11,
            Month::Dec => 12,
        }
    }

    /// The month's number, January being 1.
    pub fn number(&self) -> (r: u8)
        ensures
            r == self.spec_number(),
    {
        match self {
            Month::Jan => 1,
            Month::Feb => 2,
            Month::Mar => 3,
            Month::Apr => 4,
            Month::May => 5,
            Month::Jun => 6,
            Month::Jul => 7,
            Month::Aug => 8,
            Month::Sep => 9,
            Month::Oct => 10,
            Month::Nov => 11,
            Month::Dec => 12,
        }
    }

    /// The month with a given number; numbers outside 1 to 12 are refused.
    pub fn from_number(n: u8) -> (r: Result<Month, TimeError>)
        ensures
            1 <= n <= 12 ==> (r matches Ok(m) && m.spec_number() == n),
            !(1 <= n <= 12) ==> r == Err::<Month, TimeError>(TimeError::InvalidEnumerationMapping),
    {
        match n {
            1 => Ok(Month::Jan),
            2 => Ok(Month::Feb),
            3 => Ok(Month::Mar),
            4 => Ok(Month::Apr),
            5 => Ok(Month::May),
            6 => Ok(Month::Jun),
            7 => Ok(Month::Jul),
            8 => Ok(Month::Aug),
            9 => Ok(Month::Sep),
            10 => Ok(Month::Oct),
            11 => Ok(Month::Nov),
            12 => Ok(Month::Dec),
            _ => Err(TimeError::InvalidEnumerationMapping),
        }
    }
}

/// Which day of the week.
#[derive(Debug, Clone, Copy, PartialEq, Eq, Structural)]
pub enum DayOfWeek {
    /// Sunday
    Sunday,
    /// Monday
    Monday,
    /// Tuesday
    Tuesday,
    /// Wednesday
    Wednesday,
    /// Thursday
    Thursday,
    /// Friday
    Friday,
    /// Saturday
    Saturday,
}

impl DayOfWeek {
    /// The number of days since Sunday.
    pub open spec fn spec_number(self) -> int {
        match self {
            DayOfWeek::Sunday => 0,
            DayOfWeek::Monday => 1,
            DayOfWeek::Tuesday => 2,
            DayOfWeek::Wednesday => 3,
            DayOfWeek::Thursday => 4,
            DayOfWeek::Friday => 5,
            DayOfWeek::Saturday => 6,
        }
    }

    /// The number of days since Sunday.
    pub fn number(&self) -> (r: u8)
        ensures
            r == self.spec_number(),
    {
        match self {
            DayOfWeek::Sunday => 0,
            DayOfWeek::Monday => 1,
            DayOfWeek::Tuesday => 2,
            DayOfWeek::Wednesday => 3,
            DayOfWeek::Thursday => 4,
            DayOfWeek::Friday => 5,
            DayOfWeek::Saturday => 6,
        }
    }

    /// The weekday that lies `n` days after Sunday; numbers above 6 are refused.
    pub fn from_days_from_sunday(n: u8) -> (r: Result<DayOfWeek, TimeError>)
        ensures
            n <= 6 ==> (r matches Ok(w) && w.spec_number() == n),
            n > 6 ==> r == Err::<DayOfWeek, TimeError>(TimeError::InvalidEnumerationMapping),
    {
        match n {
            0 => Ok(DayOfWeek::Sunday),
            1 => Ok(DayOfWeek::Monday),
            2 => Ok(DayOfWeek::Tuesday),
            3 => Ok(DayOfWeek::Wednesday),
            4 => Ok(DayOfWeek::Thursday),
            5 => Ok(DayOfWeek::Friday),
            6 => Ok(DayOfWeek::Saturday),
            _ => Err(TimeError::InvalidEnumerationMapping),
        }
    }
}

} // verus!
