use chrono::{Datelike, TimeZone, Timelike};
use vstd::prelude::*;

use crate::calendar::{
    is_valid_date, is_valid_date_time, timestamp_of, weekday_of, DayOfWeek, Month,
};
use crate::duration::Duration;
use crate::elapsed::{elapsed_count, elapsed_result, elapsed_units, magnitude, trunc_div};
use crate::error::TimeError;
use crate::text::date_time_text;

verus! {

/// The calendar fields of a UTC instant.
pub struct CivilTime {
    pub year: int,
    pub month: int,
    pub day: int,
    pub hour: int,
    pub minute: int,
    pub second: int,
    pub nanosecond: int,
}

impl CivilTime {
    /// A date and time of day that the calendar has, with a sub-second part under one second.
    pub open spec fn is_valid(self) -> bool {
        &&& is_valid_date_time(self.year, self.month, self.day, self.hour, self.minute, self.second)
        &&& 0 <= self.nanosecond < 1_000_000_000
    }

    /// Whole seconds since 1970-01-01 00:00:00 UTC.
    pub open spec fn epoch_seconds(self) -> int {
        timestamp_of(self.year, self.month, self.day, self.hour, self.minute, self.second)
    }

    /// Nanoseconds since 1970-01-01 00:00:00 UTC.
    pub open spec fn epoch_nanos(self) -> int {
        self.epoch_seconds() * 1_000_000_000 + self.nanosecond
    }
}

/// A calendar date and time, stored as UTC.
pub struct Clock {
    year: i32,
    month: u8,
    day: u8,
    hour: u8,
    minute: u8,
    second: u8,
    nanosecond: u32,
    timestamp: i64,
}

impl View for Clock {
    type V = CivilTime;

    closed spec fn view(&self) -> CivilTime {
        CivilTime {
            year: self.year as int,
            month: self.month as int,
            day: self.day as int,
            hour: self.hour as int,
            minute: self.minute as int,
            second: self.second as int,
            nanosecond: self.nanosecond as int,
        }
    }
}

/// Relies on chrono's `NaiveDate::from_ymd_opt` and `NaiveDate::and_hms_opt`, which give `None`
/// exactly for fields that form no date and time of day (or a year outside chrono's range),
/// and on `DateTime::<Utc>::timestamp`, the non-leap seconds since 1970-01-01 00:00:00 UTC.
#[verifier::external_body]
fn utc_timestamp(year: i32, month: u8, day: u8, hour: u8, minute: u8, second: u8) -> (r: Option<
    i64,
>)
    ensures
        r is Some <==> is_valid_date_time(
            year as int,
            month as int,
            day as int,
            hour as int,
            minute as int,
            second as int,
        ),
        r matches Some(t) ==> t == timestamp_of(
            year as int,
            month as int,
            day as int,
            hour as int,
            minute as int,
            second as int,
        ),
{
    match chrono::NaiveDate::from_ymd_opt(year, month as u32, day as u32) {
        Some(date) => match date.and_hms_opt(hour as u32, minute as u32, second as u32) {
            Some(time) => Some(time.and_utc().timestamp()),
            None => None,
        },
        None => None,
    }
}

/// Relies on chrono's `From<SystemTime>` for `DateTime<Utc>`, read from `SystemTime::now`: a
/// reading before 1970 becomes a negative timestamp, the sub-second part stays under one
/// second (no leap second), the calendar fields of the result form a valid date and time, and
/// its `timestamp` counts the seconds of those fields. Its one `unwrap` fails only for a
/// reading beyond chrono's years, about 262,000 years from now, which a system clock does not hold.
#[verifier::external_body]
fn current_utc() -> (r: Clock)
    ensures
        r.well_formed(),
{
    let t = chrono::DateTime::<chrono::Utc>::from(std::time::SystemTime::now());
    Clock {
        year: t.year(), month: t.month() as u8, day: t.day() as u8,
        hour: t.hour() as u8, minute: t.minute() as u8, second: t.second() as u8,
        nanosecond: t.nanosecond(), timestamp: t.timestamp(),
    }
}

/// Relies on chrono's `TimeZone::with_ymd_and_hms` for `Local`, which gives no time for fields
/// that form no date and time of day and otherwise shifts them by the host's UTC offset (less
/// than a day either way, whole seconds), and on `LocalResult::earliest`, which keeps the
/// earlier of two readings and gives `None` in a gap.
#[verifier::external_body]
fn local_to_utc(year: i32, month: u8, day: u8, hour: u8, minute: u8, second: u8) -> (r: Option<
    Clock,
>)
    ensures
        !is_valid_date_time(
            year as int,
            month as int,
            day as int,
            hour as int,
            minute as int,
            second as int,
        ) ==> r is None,
        r matches Some(c) ==> {
            &&& c.well_formed()
            &&& c.nanosecond == 0
            &&& -86_400 < c.timestamp - timestamp_of(
                year as int,
                month as int,
                day as int,
                hour as int,
                minute as int,
                second as int,
            ) < 86_400
        },
{
    let (mo, d, h, mi, s) = (month as u32, day as u32, hour as u32, minute as u32, second as u32);
    let t = match chrono::Local.with_ymd_and_hms(year, mo, d, h, mi, s).earliest() {
        Some(t) => t.naive_utc(),
        None => return None,
    };
    Some(Clock {
        year: t.year(), month: t.month() as u8, day: t.day() as u8,
        hour: t.hour() as u8, minute: t.minute() as u8, second: t.second() as u8,
        nanosecond: t.nanosecond(), timestamp: t.and_utc().timestamp(),
    })
}

/// Relies on chrono's `Datelike::weekday` with `Weekday::num_days_from_sunday`: the day of the
/// week of a date of the proleptic Gregorian calendar, Sunday being 0.
#[verifier::external_body]
fn weekday_number(year: i32, month: u8, day: u8) -> (r: u8)
    requires
        is_valid_date(year as int, month as int, day as int),
    ensures
        r == weekday_of(year as int, month as int, day as int),
{
    chrono::NaiveDate::from_ymd_opt(year, month as u32, day as u32).unwrap().weekday().num_days_from_sunday() as u8
}

/// Relies on the `Display` of `chrono::NaiveDateTime`: the date as in `NaiveDate`'s (a year of
/// four digits, written with `{:+05}` outside 0 to 9999, then two-digit month and day), a
/// space, and the time as in `NaiveTime`'s (two-digit fields, then a fraction of 3, 6 or 9
/// digits when the nanoseconds are not zero).
#[verifier::external_body]
fn render_utc(c: &Clock) -> (r: String)
    requires
        c.well_formed(),
    ensures
        r@ == date_time_text(
            c.year as int,
            c.month as int,
            c.day as int,
            c.hour as int,
            c.minute as int,
            c.second as int,
            c.nanosecond as int,
        ),
{
    let date = chrono::NaiveDate::from_ymd_opt(c.year, c.month as u32, c.day as u32).unwrap();
    let t = date.and_hms_nano_opt(c.hour as u32, c.minute as u32, c.second as u32, c.nanosecond);
    t.unwrap().to_string()
}

/// Relies on chrono's `TimeZone::offset_from_utc_datetime` for `Local`, the host's UTC offset
/// at that instant (whole seconds, less than a day either way), and on
/// `NaiveDateTime::checked_add_offset`, which applies it and gives `None` where the local time
/// would leave chrono's range; the result keeps the sub-second part.
#[verifier::external_body]
fn local_wall_time(c: &Clock) -> (r: Option<Clock>)
    requires
        c.well_formed(),
    ensures
        r matches Some(l) ==> {
            &&& l.well_formed()
            &&& l.nanosecond == c.nanosecond
            &&& -86_400 < l.timestamp - c.timestamp < 86_400
        },
{
    let date = chrono::NaiveDate::from_ymd_opt(c.year, c.month as u32, c.day as u32).unwrap();
    let (h, mi, s) = (c.hour as u32, c.minute as u32, c.second as u32);
    let utc = date.and_hms_nano_opt(h, mi, s, c.nanosecond).unwrap();
    let t = match utc.checked_add_offset(chrono::Local.offset_from_utc_datetime(&utc)) {
        Some(t) => t,
        None => return None,
    };
    Some(Clock {
        year: t.year(), month: t.month() as u8, day: t.day() as u8,
        hour: t.hour() as u8, minute: t.minute() as u8, second: t.second() as u8,
        nanosecond: t.nanosecond(), timestamp: t.and_utc().timestamp(),
    })
}

impl Clock {
    #[verifier::type_invariant]
    spec fn well_formed(&self) -> bool {
        &&& self@.is_valid()
        &&& self.timestamp == self@.epoch_seconds()
    }

    /// Get the current time.
    pub fn new() -> (r: Clock)
        ensures
            r@.is_valid(),
    {
        let r = current_utc();
        proof {
            use_type_invariant(&r);
        }
        r
    }

    /// Define a UTC time; `None` where the fields form no date and time of day.
    pub fn utc(year: i32, month: u8, day: u8, hour: u8, min: u8, sec: u8) -> (r: Option<Clock>)
        ensures
            r is Some <==> is_valid_date_time(
                year as int,
                month as int,
                day as int,
                hour as int,
                min as int,
                sec as int,
            ),
            r matches Some(c) ==> c@ == (CivilTime {
                year: year as int,
                month: month as int,
                day: day as int,
                hour: hour as int,
                minute: min as int,
                second: sec as int,
                nanosecond: 0,
            }),
    {
        match utc_timestamp(year, month, day, hour, min, sec) {
            Some(timestamp) => Some(
                Clock {
                    year,
                    month,
                    day,
                    hour,
                    minute: min,
                    second: sec,
                    nanosecond: 0,
                    timestamp,
                },
            ),
            None => None,
        }
    }

    /// Define a local time, converted to UTC with the host's offset; `None` where the fields
    /// form no date and time of day, or name a local time that the host's clock skips.
    pub fn local(year: i32, month: u8, day: u8, hour: u8, min: u8, sec: u8) -> (r: Option<Clock>)
        ensures
            !is_valid_date_time(
                year as int,
                month as int,
                day as int,
                hour as int,
                min as int,
                sec as int,
            ) ==> r is None,
            r matches Some(c) ==> {
                &&& c@.is_valid()
                &&& c@.nanosecond == 0
                &&& magnitude(
                    c@.epoch_seconds() - timestamp_of(
                        year as int,
                        month as int,
                        day as int,
                        hour as int,
                        min as int,
                        sec as int,
                    ),
                ) < 86_400
            },
    {
        local_to_utc(year, month, day, hour, min, sec)
    }

    /// Get the year.
    pub fn year(&self) -> (r: i32)
        ensures
            self@.is_valid(),
            r == self@.year,
    {
        proof {
            use_type_invariant(self);
        }
        self.year
    }

    /// Get the month.
    pub fn month(&self) -> (r: Month)
        ensures
            self@.is_valid(),
            r.spec_number() == self@.month,
    {
        proof {
            use_type_invariant(self);
        }
        let m = Month::from_number(self.month);
        m.unwrap()
    }

    /// Get the day of the month.
    pub fn day(&self) -> (r: u8)
        ensures
            self@.is_valid(),
            r == self@.day,
    {
        proof {
            use_type_invariant(self);
        }
        self.day
    }

    /// Get the day of the week.
    pub fn dayofweek(&self) -> (r: DayOfWeek)
        ensures
            self@.is_valid(),
            r.spec_number() == weekday_of(self@.year, self@.month, self@.day),
    {
        proof {
            use_type_invariant(self);
        }
        let n = weekday_number(self.year, self.month, self.day);
        let w = DayOfWeek::from_days_from_sunday(n);
        w.unwrap()
    }

    /// Get the hour (0-23).
    pub fn hour(&self) -> (r: u8)
        ensures
            self@.is_valid(),
            r == self@.hour,
    {
        proof {
            use_type_invariant(self);
        }
        self.hour
    }

    /// Get the minute (0-59).
    pub fn minute(&self) -> (r: u8)
        ensures
            self@.is_valid(),
            r == self@.minute,
    {
        proof {
            use_type_invariant(self);
        }
        self.minute
    }

    /// Get the second (0-59).
    pub fn second(&self) -> (r: u8)
        ensures
            self@.is_valid(),
            r == self@.second,
    {
        proof {
            use_type_invariant(self);
        }
        self.second
    }

    /// Get the nanosecond.
    pub fn nanosecond(&self) -> (r: u32)
        ensures
            self@.is_valid(),
            r == self@.nanosecond,
    {
        proof {
            use_type_invariant(self);
        }
        self.nanosecond
    }

    /// The number of whole `frac`s from `other` to this clock, rounded toward zero: positive
    /// when this clock is later.
    pub fn since(&self, other: &Clock, frac: Duration) -> (r: Result<i64, TimeError>)
        ensures
            r == elapsed_result(self@.epoch_nanos() - other@.epoch_nanos(), frac@),
    {
        proof {
            use_type_invariant(self);
            use_type_invariant(other);
        }
        let seconds = self.timestamp as i128 - other.timestamp as i128;
        let nanos = self.nanosecond as i128 - other.nanosecond as i128;
        elapsed_units(seconds * 1_000_000_000 + nanos, frac)
    }

    /// The stored UTC date and time as text.
    pub fn to_utc_string(&self) -> (r: String)
        ensures
            r@ == date_time_text(
                self@.year,
                self@.month,
                self@.day,
                self@.hour,
                self@.minute,
                self@.second,
                self@.nanosecond,
            ),
    {
        proof {
            use_type_invariant(self);
        }
        render_utc(self)
    }

    /// The date and time as text, in the host's local time; `None` where the host's offset
    /// would carry it outside the supported years.
    pub fn to_local_string(&self) -> (r: Option<String>)
        ensures
            r matches Some(t) ==> exists|l: CivilTime|
                {
                    &&& l.is_valid()
                    &&& l.nanosecond == self@.nanosecond
                    &&& -86_400 < l.epoch_seconds() - self@.epoch_seconds() < 86_400
                    &&& t@ == date_time_text(
                        l.year,
                        l.month,
                        l.day,
                        l.hour,
                        l.minute,
                        l.second,
                        l.nanosecond,
                    )
                },
    {
        proof {
            use_type_invariant(self);
        }
        match local_wall_time(self) {
            Some(l) => {
                proof {
                    use_type_invariant(&l);
                }
                let t = l.to_utc_string();
                Some(t)
            },
            None => None,
        }
    }
}

impl Default for Clock {
    /// The current time.
    fn default() -> (r: Clock)
        ensures
            r@.is_valid(),
    {
        Clock::new()
    }
}

/// Counting any usable unit from an instant to itself gives zero.
pub proof fn lemma_since_itself_is_zero(a: Clock, unit: Duration)
    requires
        unit@.denominator != 0,
        unit@.seconds != 0,
    ensures
        elapsed_result(a@.epoch_nanos() - a@.epoch_nanos(), unit@) == Ok::<i64, TimeError>(0),
{
    assert(elapsed_count(0, unit@) == 0);
}

/// Counting units from `b` to `a` gives the negation of counting them from `a` to `b`, and
/// both fail alike; the one exception is a count of exactly 2^63 units, whose negation alone
/// fits an `i64`.
pub proof fn lemma_since_antisymmetric(a: Clock, b: Clock, unit: Duration)
    requires
        magnitude(elapsed_count(a@.epoch_nanos() - b@.epoch_nanos(), unit@))
            != 0x8000_0000_0000_0000,
    ensures
        unit@.seconds != 0 ==> elapsed_count(b@.epoch_nanos() - a@.epoch_nanos(), unit@) == -elapsed_count(
            a@.epoch_nanos() - b@.epoch_nanos(),
            unit@,
        ),
        match (
            elapsed_result(a@.epoch_nanos() - b@.epoch_nanos(), unit@),
            elapsed_result(b@.epoch_nanos() - a@.epoch_nanos(), unit@),
        ) {
            (Ok(x), Ok(y)) => x == -y,
            (Err(e), Err(f)) => e == f,
            _ => false,
        },
{
    let d = a@.epoch_nanos() - b@.epoch_nanos();
    let den = unit@.denominator;
    let s = unit@.seconds * 1_000_000_000;
    assert((-d) * den == -(d * den)) by (nonlinear_arith);
    if unit@.seconds != 0 {
        assert(0int / magnitude(s) == 0);
        assert(trunc_div(-(d * den), s) == -trunc_div(d * den, s));
    }
}

} // verus!
