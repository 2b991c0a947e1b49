use cala::{Duration, TimeError};

#[test]
fn new_keeps_its_parts() {
    let d = Duration::new(-7, 9);
    assert_eq!(d.seconds(), -7);
    assert_eq!(d.denominator(), 9);
}

#[test]
fn named_units() {
    assert_eq!(Duration::nanosecond().to_string(), "1/1000000000");
    assert_eq!(Duration::microsecond().to_string(), "1/1000000");
    assert_eq!(Duration::millisecond().to_string(), "1/1000");
    assert_eq!(Duration::second().to_string(), "1/1");
    assert_eq!(Duration::minute().to_string(), "60/1");
    assert_eq!(Duration::hour().to_string(), "3600/1");
    assert_eq!(Duration::day().to_string(), "86400/1");
}

#[test]
fn one_second_divided_by_three() {
    let d = Duration::new(1, 1).divide_by_integer(3).unwrap();
    assert_eq!(d.seconds(), 1);
    assert_eq!(d.denominator(), 3);
    assert_eq!(d.to_string(), "1/3");
}

#[test]
fn one_second_divided_by_minus_two() {
    let d = Duration::new(1, 1).divide_by_integer(-2).unwrap();
    assert_eq!(d.seconds(), -1);
    assert_eq!(d.denominator(), 2);
    assert_eq!(d.to_string(), "-1/2");
}

#[test]
fn scaling_multiplies_the_seconds() {
    let d = Duration::new(3, 4).scale_by_integer(5).unwrap();
    assert_eq!((d.seconds(), d.denominator()), (15, 4));
    let d = Duration::new(3, 4).scale_by_integer(-5).unwrap();
    assert_eq!((d.seconds(), d.denominator()), (-15, 4));
    let d = Duration::new(-3, 4).scale_by_integer(-2).unwrap();
    assert_eq!((d.seconds(), d.denominator()), (6, 4));
    let d = Duration::new(3, 4).scale_by_integer(0).unwrap();
    assert_eq!((d.seconds(), d.denominator()), (0, 4));
}

#[test]
fn scaled_and_divided_values_match_rationals() {
    for k in [-7i32, -1, 1, 2, 9] {
        let d = Duration::new(5, 6);
        let m = d.scale_by_integer(k).unwrap();
        assert_eq!(m.seconds() as i64 * 6, 5 * k as i64 * m.denominator() as i64);
        let q = d.divide_by_integer(k).unwrap();
        assert_eq!(q.seconds() as i64 * 6 * k as i64, 5 * q.denominator() as i64);
        assert_eq!(q.denominator() as i64, 6 * (k as i64).abs());
    }
}

#[test]
fn zero_denominator_is_refused_in_arithmetic() {
    let d = Duration::new(1, 0);
    assert_eq!(d.scale_by_integer(2), Err(TimeError::InvalidDurationDenominator));
    assert_eq!(d.divide_by_integer(2), Err(TimeError::InvalidDurationDenominator));
    assert_eq!(
        Duration::new(1, 1).divide_by_integer(0),
        Err(TimeError::InvalidDurationDenominator)
    );
}

#[test]
fn arithmetic_overflow_is_reported() {
    assert_eq!(
        Duration::new(i32::MAX, 1).scale_by_integer(2),
        Err(TimeError::ArithmeticOverflow)
    );
    assert_eq!(
        Duration::new(i32::MIN, 1).scale_by_integer(-1),
        Err(TimeError::ArithmeticOverflow)
    );
    assert_eq!(
        Duration::new(1, u32::MAX).divide_by_integer(2),
        Err(TimeError::ArithmeticOverflow)
    );
    assert_eq!(
        Duration::new(i32::MIN, 1).divide_by_integer(-1),
        Err(TimeError::ArithmeticOverflow)
    );
    let d = Duration::new(i32::MIN, 1).scale_by_integer(1).unwrap();
    assert_eq!(d.to_string(), "-2147483648/1");
}

#[test]
fn rendering_of_extremes() {
    assert_eq!(Duration::new(0, 0).to_string(), "0/0");
    assert_eq!(Duration::new(i32::MAX, u32::MAX).to_string(), "2147483647/4294967295");
    assert_eq!(Duration::new(-10, 100).to_string(), "-10/100");
}
