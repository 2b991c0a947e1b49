use vstd::prelude::*;

use crate::error::TimeError;
use crate::text::{integer_text, push_integer};

verus! {

/// An exact quantity of seconds: `seconds / denominator`.
pub struct Ratio {
    pub seconds: int,
    pub denominator: int,
}

/// `a` and `b` stand for the same rational number (both denominators nonzero).
pub open spec fn same_value(a: Ratio, b: Ratio) -> bool {
    a.seconds * b.denominator == b.seconds * a.denominator
}

/// `d` scaled by `factor`: the sign of a negative factor moves onto the seconds,
/// and the seconds are multiplied by the factor's magnitude.
pub open spec fn scaled(d: Ratio, factor: int) -> Ratio {
    if factor < 0 {
        Ratio { seconds: (-d.seconds) * (-factor), denominator: d.denominator }
    } else {
        Ratio { seconds: d.seconds * factor, denominator: d.denominator }
    }
}

/// `d` divided by `factor`: the sign of a negative factor moves onto the seconds,
/// and the denominator is multiplied by the factor's magnitude.
pub open spec fn divided(d: Ratio, factor: int) -> Ratio {
    if factor < 0 {
        Ratio { seconds: -d.seconds, denominator: d.denominator * (-factor) }
    } else {
        Ratio { seconds: d.seconds, denominator: d.denominator * factor }
    }
}

/// A ratio whose parts fit the fields of a `Duration`.
pub open spec fn fits_duration(d: Ratio) -> bool {
    i32::MIN <= d.seconds <= i32::MAX && 0 <= d.denominator <= u32::MAX
}

/// An amount of time, kept as an exact fraction of seconds.
#[derive(Debug, Clone, Copy, PartialEq, Eq, Structural)]
pub struct Duration {
    seconds: i32,
    denominator: u32,
}

impl View for Duration {
    type V = Ratio;

    closed spec fn view(&self) -> Ratio {
        Ratio { seconds: self.seconds as int, denominator: self.denominator as int }
    }
}

impl Duration {
    /// Create a new fraction; the denominator is checked where the value is used.
    pub fn new(seconds: i32, denominator: u32) -> (r: Duration)
        ensures
            r@ == (Ratio { seconds: seconds as int, denominator: denominator as int }),
    {
        Duration { seconds, denominator }
    }

    /// 1 nanosecond.
    pub fn nanosecond() -> (r: Duration)
        ensures
            r@ == (Ratio { seconds: 1, denominator: 1_000_000_000 }),
    {
        Duration { seconds: 1, denominator: 1_000_000_000 }
    }

    /// 1 microsecond.
    pub fn microsecond() -> (r: Duration)
        ensures
            r@ == (Ratio { seconds: 1, denominator: 1_000_000 }),
    {
        Duration { seconds: 1, denominator: 1_000_000 }
    }

    /// 1 millisecond.
    pub fn millisecond() -> (r: Duration)
        ensures
            r@ == (Ratio { seconds: 1, denominator: 1_000 }),
    {
        Duration { seconds: 1, denominator: 1_000 }
    }

    /// 1 second.
    pub fn second() -> (r: Duration)
        ensures
            r@ == (Ratio { seconds: 1, denominator: 1 }),
    {
        Duration { seconds: 1, denominator: 1 }
    }

    /// 1 minute.
    pub fn minute() -> (r: Duration)
        ensures
            r@ == (Ratio { seconds: 60, denominator: 1 }),
    {
        Duration { seconds: 60, denominator: 1 }
    }

    /// 1 hour.
    pub fn hour() -> (r: Duration)
        ensures
            r@ == (Ratio { seconds: 3_600, denominator: 1 }),
    {
        Duration { seconds: 3_600, denominator: 1 }
    }

    /// 1 day.
    pub fn day() -> (r: Duration)
        ensures
            r@ == (Ratio { seconds: 86_400, denominator: 1 }),
    {
        Duration { seconds: 86_400, denominator: 1 }
    }

    /// The signed numerator, in seconds.
    pub fn seconds(&self) -> (r: i32)
        ensures
            r == self@.seconds,
    {
        self.seconds
    }

    /// The denominator.
    pub fn denominator(&self) -> (r: u32)
        ensures
            r == self@.denominator,
    {
        self.denominator
    }

    /// This duration multiplied by `factor`.
    pub fn scale_by_integer(self, factor: i32) -> (r: Result<Duration, TimeError>)
        ensures
            self@.denominator == 0 ==> r == Err::<Duration, TimeError>(
                TimeError::InvalidDurationDenominator,
            ),
            self@.denominator != 0 && fits_duration(scaled(self@, factor as int)) ==> (r matches Ok(
                d,
            ) && d@ == scaled(self@, factor as int)),
            self@.denominator != 0 && !fits_duration(scaled(self@, factor as int)) ==> r == Err::<
                Duration,
                TimeError,
            >(TimeError::ArithmeticOverflow),
    {
        if self.denominator == 0 {
            return Err(TimeError::InvalidDurationDenominator);
        }
        let mut seconds = self.seconds as i64;
        let mut factor = factor as i64;
        if factor < 0 {
            seconds = -seconds;
            factor = -factor;
        }
        assert(-(0x8000_0000 * 0x8000_0000) <= seconds * factor <= 0x8000_0000 * 0x8000_0000) by (nonlinear_arith)
            requires
                -0x8000_0000 <= seconds <= 0x8000_0000,
                0 <= factor <= 0x8000_0000,
        ;
        let product = seconds * factor;
        if product < i32::MIN as i64 || product > i32::MAX as i64 {
            return Err(TimeError::ArithmeticOverflow);
        }
        Ok(Duration { seconds: product as i32, denominator: self.denominator })
    }

    /// This duration divided by `factor`.
    pub fn divide_by_integer(self, factor: i32) -> (r: Result<Duration, TimeError>)
        ensures
            self@.denominator == 0 || factor == 0 ==> r == Err::<Duration, TimeError>(
                TimeError::InvalidDurationDenominator,
            ),
            self@.denominator != 0 && factor != 0 && fits_duration(divided(self@, factor as int))
                ==> (r matches Ok(d) && d@ == divided(self@, factor as int)),
            self@.denominator != 0 && factor != 0 && !fits_duration(divided(self@, factor as int))
                ==> r == Err::<Duration, TimeError>(TimeError::ArithmeticOverflow),
    {
        if self.denominator == 0 || factor == 0 {
            return Err(TimeError::InvalidDurationDenominator);
        }
        let mut seconds = self.seconds as i64;
        let mut factor = factor as i64;
        if factor < 0 {
            seconds = -seconds;
            factor = -factor;
        }
        assert(0 <= self.denominator * factor <= 0x1_0000_0000 * 0x8000_0000) by (nonlinear_arith)
            requires
                0 <= self.denominator <= 0x1_0000_0000,
                0 <= factor <= 0x8000_0000,
        ;
        let denominator = self.denominator as u64 * factor as u64;
        if seconds > i32::MAX as i64 || denominator > u32::MAX as u64 {
            return Err(TimeError::ArithmeticOverflow);
        }
        Ok(Duration { seconds: seconds as i32, denominator: denominator as u32 })
    }

    /// The text `"<seconds>/<denominator>"`.
    pub fn to_string(&self) -> (r: String)
        ensures
            r@ == integer_text(self@.seconds) + seq!['/'] + integer_text(self@.denominator),
    {
        let mut out = String::new();
        push_integer(&mut out, self.seconds as i64);
        proof {
            reveal_strlit("/");
        }
        out.append("/");
        push_integer(&mut out, self.denominator as i64);
        out
    }
}

/// The parts of every duration fit an `i32` numerator and a `u32` denominator.
pub proof fn lemma_duration_fits(d: Duration)
    ensures
        fits_duration(d@),
{
}

/// Scaling by a nonzero integer gives a duration worth the given one times the
/// factor, and dividing gives one worth the given one over the factor; for a
/// negative factor the sign moves onto the seconds and the factor's magnitude
/// is what multiplies.
pub proof fn lemma_scaling_preserves_value(d: Ratio, factor: int)
    requires
        d.denominator != 0,
        factor != 0,
    ensures
        same_value(scaled(d, factor), Ratio { seconds: d.seconds * factor, denominator: d.denominator }),
        same_value(divided(d, factor), Ratio { seconds: d.seconds, denominator: d.denominator * factor }),
        scaled(d, factor).denominator == d.denominator,
        factor < 0 ==> scaled(d, factor).seconds == -(d.seconds * (-factor)),
        factor < 0 ==> divided(d, factor).seconds == -d.seconds,
        factor < 0 ==> divided(d, factor).denominator == d.denominator * (-factor),
        factor > 0 ==> divided(d, factor) == (Ratio { seconds: d.seconds, denominator: d.denominator * factor }),
{
    let s = d.seconds;
    let n = d.denominator;
    assert((-s) * (-factor) == s * factor) by (nonlinear_arith);
    assert(-(s * (-factor)) == s * factor) by (nonlinear_arith);
    assert((-s) * (n * factor) == s * (n * (-factor))) by (nonlinear_arith);
}

} // verus!
