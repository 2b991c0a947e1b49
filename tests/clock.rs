use cala::{elapsed_units, Clock, DayOfWeek, Duration, Month, TimeError};

fn utc(y: i32, mo: u8, d: u8, h: u8, mi: u8, s: u8) -> Clock {
    Clock::utc(y, mo, d, h, mi, s).unwrap()
}

#[test]
fn utc_fields_round_trip() {
    let c = utc(2024, 1, 1, 0, 0, 0);
    assert_eq!(c.year(), 2024);
    assert_eq!(c.month(), Month::Jan);
    assert_eq!(c.day(), 1);
    assert_eq!(c.hour(), 0);
    assert_eq!(c.minute(), 0);
    assert_eq!(c.second(), 0);
    assert_eq!(c.nanosecond(), 0);
    assert_eq!(c.dayofweek(), DayOfWeek::Monday);
    let c = utc(-4, 2, 29, 23, 59, 58);
    assert_eq!(
        (c.year(), c.month().number(), c.day(), c.hour(), c.minute(), c.second()),
        (-4, 2, 29, 23, 59, 58)
    );
}

#[test]
fn weekdays_follow_the_gregorian_calendar() {
    assert_eq!(utc(1970, 1, 1, 0, 0, 0).dayofweek(), DayOfWeek::Thursday);
    assert_eq!(utc(2000, 2, 29, 12, 0, 0).dayofweek(), DayOfWeek::Tuesday);
    assert_eq!(utc(1900, 3, 1, 0, 0, 0).dayofweek(), DayOfWeek::Thursday);
    assert_eq!(utc(2023, 12, 31, 0, 0, 0).dayofweek(), DayOfWeek::Sunday);
    assert_eq!(utc(2024, 7, 20, 0, 0, 0).dayofweek(), DayOfWeek::Saturday);
}

#[test]
fn out_of_range_fields_are_refused() {
    assert!(Clock::utc(2024, 13, 1, 0, 0, 0).is_none());
    assert!(Clock::utc(2024, 0, 1, 0, 0, 0).is_none());
    assert!(Clock::utc(2024, 1, 32, 0, 0, 0).is_none());
    assert!(Clock::utc(2024, 1, 0, 0, 0, 0).is_none());
    assert!(Clock::utc(2023, 2, 29, 0, 0, 0).is_none());
    assert!(Clock::utc(2024, 2, 30, 0, 0, 0).is_none());
    assert!(Clock::utc(1900, 2, 29, 0, 0, 0).is_none());
    assert!(Clock::utc(2024, 4, 31, 0, 0, 0).is_none());
    assert!(Clock::utc(2024, 1, 1, 24, 0, 0).is_none());
    assert!(Clock::utc(2024, 1, 1, 0, 60, 0).is_none());
    assert!(Clock::utc(2024, 1, 1, 0, 0, 60).is_none());
    assert!(Clock::utc(400_000, 1, 1, 0, 0, 0).is_none());
    assert!(Clock::utc(2024, 2, 29, 23, 59, 59).is_some());
    assert!(Clock::local(2024, 13, 1, 0, 0, 0).is_none());
    assert!(Clock::local(2024, 1, 32, 0, 0, 0).is_none());
    assert!(Clock::local(2024, 1, 1, 0, 0, 60).is_none());
}

#[test]
fn local_time_is_within_a_day_of_utc() {
    let l = Clock::local(2024, 1, 15, 12, 0, 0).unwrap();
    let u = utc(2024, 1, 15, 12, 0, 0);
    let hours = l.since(&u, Duration::hour()).unwrap();
    assert!(hours > -24 && hours < 24);
    assert_eq!(l.nanosecond(), 0);
}

#[test]
fn one_second_apart() {
    let a = utc(2024, 1, 1, 0, 0, 0);
    let b = utc(2024, 1, 1, 0, 0, 1);
    assert_eq!(b.since(&a, Duration::second()), Ok(1));
    assert_eq!(b.since(&a, Duration::millisecond()), Ok(1000));
}

#[test]
fn counting_backwards_negates() {
    let a = utc(2024, 1, 1, 0, 0, 0);
    let b = utc(2024, 1, 1, 0, 0, 1);
    assert_eq!(a.since(&b, Duration::second()), Ok(-1));
    assert_eq!(a.since(&b, Duration::millisecond()), Ok(-1000));
    let c = utc(1999, 12, 31, 23, 59, 59);
    let third = Duration::new(1, 3);
    assert_eq!(a.since(&c, third), Ok(2_272_147_203));
    assert_eq!(c.since(&a, third), Ok(-2_272_147_203));
}

#[test]
fn an_instant_since_itself_is_zero() {
    let a = utc(2024, 1, 1, 0, 0, 0);
    assert_eq!(a.since(&a, Duration::nanosecond()), Ok(0));
    assert_eq!(a.since(&a, Duration::day()), Ok(0));
    let now = Clock::new();
    assert_eq!(now.since(&now, Duration::new(-7, 3)), Ok(0));
}

#[test]
fn zero_denominator_unit_is_refused() {
    let a = utc(2024, 1, 1, 0, 0, 0);
    let b = utc(2024, 1, 1, 0, 0, 1);
    assert_eq!(b.since(&a, Duration::new(1, 0)), Err(TimeError::InvalidDurationDenominator));
    assert_eq!(b.since(&a, Duration::new(0, 0)), Err(TimeError::InvalidDurationDenominator));
    assert_eq!(b.since(&a, Duration::new(0, 5)), Err(TimeError::ZeroLengthUnit));
}

#[test]
fn calendar_spans() {
    let d = Duration::day();
    assert_eq!(utc(2000, 3, 1, 0, 0, 0).since(&utc(2000, 2, 28, 0, 0, 0), d), Ok(2));
    assert_eq!(utc(1900, 3, 1, 0, 0, 0).since(&utc(1900, 2, 28, 0, 0, 0), d), Ok(1));
    assert_eq!(utc(1, 1, 1, 0, 0, 0).since(&utc(0, 1, 1, 0, 0, 0), d), Ok(366));
    assert_eq!(utc(2024, 1, 1, 0, 0, 0).since(&utc(1970, 1, 1, 0, 0, 0), Duration::second()), Ok(1_704_067_200));
    assert_eq!(utc(2024, 1, 1, 0, 0, 0).since(&utc(2023, 12, 31, 23, 0, 0), Duration::minute()), Ok(60));
    let third = Duration::new(1, 3);
    assert_eq!(utc(2024, 1, 1, 0, 0, 1).since(&utc(2024, 1, 1, 0, 0, 0), third), Ok(3));
    let ninety = Duration::new(90, 1);
    assert_eq!(utc(2024, 1, 1, 0, 3, 0).since(&utc(2024, 1, 1, 0, 0, 0), ninety), Ok(2));
    assert_eq!(utc(2024, 1, 1, 0, 2, 59).since(&utc(2024, 1, 1, 0, 0, 0), ninety), Ok(1));
    assert_eq!(utc(2024, 1, 1, 0, 0, 0).since(&utc(2024, 1, 1, 0, 2, 59), ninety), Ok(-1));
}

#[test]
fn huge_counts_overflow() {
    let first = utc(-262_143, 1, 1, 0, 0, 0);
    let last = utc(262_142, 12, 31, 23, 59, 59);
    assert_eq!(last.since(&first, Duration::nanosecond()), Err(TimeError::ArithmeticOverflow));
    assert!(last.since(&first, Duration::day()).is_ok());
}

#[test]
fn elapsed_units_on_spans() {
    let s = Duration::second();
    assert_eq!(elapsed_units(-1, s), Ok(0));
    assert_eq!(elapsed_units(1_500_000_000, s), Ok(1));
    assert_eq!(elapsed_units(-1_500_000_000, s), Ok(-1));
    assert_eq!(elapsed_units(2_000_000_000, Duration::new(-1, 1)), Ok(-2));
    assert_eq!(elapsed_units(-2_000_000_000, Duration::new(-1, 1)), Ok(2));
    assert_eq!(elapsed_units(999, Duration::new(1, 1_000_000)), Ok(0));
    assert_eq!(elapsed_units(1_000, Duration::new(1, 1_000_000)), Ok(1));
    let n = Duration::nanosecond();
    assert_eq!(elapsed_units(-(1i128 << 63), n), Ok(i64::MIN));
    assert_eq!(elapsed_units(1i128 << 63, n), Err(TimeError::ArithmeticOverflow));
    assert_eq!(elapsed_units((1i128 << 63) - 1, n), Ok(i64::MAX));
    assert_eq!(elapsed_units(i128::MIN, n), Err(TimeError::ArithmeticOverflow));
    assert_eq!(elapsed_units(i128::MAX, Duration::new(1, u32::MAX)), Err(TimeError::ArithmeticOverflow));
    assert_eq!(elapsed_units(5, Duration::new(1, 0)), Err(TimeError::InvalidDurationDenominator));
    assert_eq!(elapsed_units(5, Duration::new(0, 1)), Err(TimeError::ZeroLengthUnit));
}

#[test]
fn now_is_a_valid_reading() {
    let a = Clock::new();
    let b = Clock::new();
    assert!(b.since(&a, Duration::nanosecond()).unwrap() >= 0);
    assert!(a.nanosecond() < 1_000_000_000);
    assert!(a.year() >= 1970);
    assert!(a.month().number() >= 1 && a.month().number() <= 12);
}

#[test]
fn month_and_weekday_mappings() {
    assert_eq!(Month::from_number(1), Ok(Month::Jan));
    assert_eq!(Month::from_number(12), Ok(Month::Dec));
    assert_eq!(Month::from_number(0), Err(TimeError::InvalidEnumerationMapping));
    assert_eq!(Month::from_number(13), Err(TimeError::InvalidEnumerationMapping));
    assert_eq!(DayOfWeek::from_days_from_sunday(0), Ok(DayOfWeek::Sunday));
    assert_eq!(DayOfWeek::from_days_from_sunday(6), Ok(DayOfWeek::Saturday));
    assert_eq!(DayOfWeek::from_days_from_sunday(7), Err(TimeError::InvalidEnumerationMapping));
    assert_eq!(Month::Jul.number(), 7);
    assert_eq!(DayOfWeek::Wednesday.number(), 3);
}

#[test]
fn utc_text() {
    assert_eq!(utc(2024, 1, 1, 0, 0, 0).to_utc_string(), "2024-01-01 00:00:00");
    assert_eq!(utc(1999, 12, 31, 23, 59, 59).to_utc_string(), "1999-12-31 23:59:59");
    assert!(!utc(2024, 1, 1, 0, 0, 0).to_local_string().unwrap().is_empty());
}

#[test]
fn default_is_a_current_reading() {
    let c = Clock::default();
    assert!(c.year() >= 1970);
    assert!(c.hour() < 24 && c.minute() < 60 && c.second() < 60);
}

#[test]
fn local_text_at_the_ends_of_the_range() {
    let last = utc(262_142, 12, 31, 23, 59, 59);
    let first = utc(-262_143, 1, 1, 0, 0, 0);
    for c in [last, first] {
        if let Some(t) = c.to_local_string() {
            assert!(!t.is_empty());
        }
    }
}

#[test]
fn utc_text_of_years_outside_four_digits() {
    assert_eq!(utc(-1, 1, 1, 0, 0, 0).to_utc_string(), "-0001-01-01 00:00:00");
    assert_eq!(utc(10_000, 12, 31, 0, 0, 0).to_utc_string(), "+10000-12-31 00:00:00");
    assert_eq!(utc(5, 3, 4, 5, 6, 7).to_utc_string(), "0005-03-04 05:06:07");
    assert_eq!(utc(-262_143, 1, 1, 0, 0, 0).to_utc_string(), "-262143-01-01 00:00:00");
}
