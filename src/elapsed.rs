use vstd::arithmetic::div_mod::{
    lemma_div_denominator, lemma_div_is_ordered, lemma_div_pos_is_pos, lemma_fundamental_div_mod,
    lemma_hoist_over_denominator, lemma_mod_pos_bound,
};
use vstd::prelude::*;

use crate::duration::{Duration, Ratio};
use crate::error::TimeError;

verus! {

/// The absolute value of an integer.
pub open spec fn magnitude(x: int) -> int {
    if x < 0 {
        -x
    } else {
        x
    }
}

/// `a / b` rounded toward zero.
pub open spec fn trunc_div(a: int, b: int) -> int {
    if (a < 0) == (b < 0) {
        magnitude(a) / magnitude(b)
    } else {
        -(magnitude(a) / magnitude(b))
    }
}

/// The number of whole `unit`s in a span of `delta_nanos` nanoseconds, rounded toward
/// zero: `delta / unit`, where the unit is worth `seconds / denominator` seconds.
pub open spec fn elapsed_count(delta_nanos: int, unit: Ratio) -> int {
    trunc_div(delta_nanos * unit.denominator, unit.seconds * 1_000_000_000)
}

/// What counting `unit`s over a span of `delta_nanos` nanoseconds gives: the count when
/// the unit is usable and the count fits an `i64`, and otherwise the reason it is not.
pub open spec fn elapsed_result(delta_nanos: int, unit: Ratio) -> Result<i64, TimeError> {
    if unit.denominator == 0 {
        Err(TimeError::InvalidDurationDenominator)
    } else if unit.seconds == 0 {
        Err(TimeError::ZeroLengthUnit)
    } else if i64::MIN <= elapsed_count(delta_nanos, unit) <= i64::MAX {
        Ok(elapsed_count(delta_nanos, unit) as i64)
    } else {
        Err(TimeError::ArithmeticOverflow)
    }
}

/// Dividing `whole` seconds and `part` nanoseconds, scaled by `den`, by `n` seconds can be done
/// on the seconds first, with their remainder carried into the nanoseconds.
proof fn lemma_split_quotient(whole: int, part: int, den: int, n: int)
    requires
        0 <= whole,
        0 <= part,
        0 < den,
        0 < n,
    ensures
        0 <= (whole * den) / n,
        0 <= whole * den,
        ((whole * 1_000_000_000 + part) * den) / (n * 1_000_000_000) == (whole * den) / n + ((
        part * den + ((whole * den) % n) * 1_000_000_000) / n) / 1_000_000_000,
{
    let x = whole * den;
    assert(0 <= x) by (nonlinear_arith)
        requires
            x == whole * den,
            0 <= whole,
            0 < den,
    ;
    let q = x / n;
    let r = x % n;
    lemma_fundamental_div_mod(x, n);
    lemma_mod_pos_bound(x, n);
    lemma_div_pos_is_pos(x, n);
    let carried = part * den + r * 1_000_000_000;
    assert(0 <= part * den) by (nonlinear_arith)
        requires
            0 <= part,
            0 < den,
    ;
    let d = n * 1_000_000_000;
    assert((whole * 1_000_000_000 + part) * den == carried + q * d) by (nonlinear_arith)
        requires
            x == whole * den,
            x == n * q + r,
            carried == part * den + r * 1_000_000_000,
            d == n * 1_000_000_000,
    ;
    lemma_hoist_over_denominator(carried, q, d as nat);
    lemma_div_denominator(carried, n, 1_000_000_000);
}

/// A quotient of at least 2^128 by at most 2^31 is above 2^63.
proof fn lemma_large_quotient(x: int, n: int)
    requires
        x >= 0x1_0000_0000_0000_0000_0000_0000_0000_0000,
        0 < n <= 0x8000_0000,
    ensures
        x / n > 0x8000_0000_0000_0000,
{
    lemma_fundamental_div_mod(x, n);
    lemma_mod_pos_bound(x, n);
    let q = x / n;
    assert(q > 0x8000_0000_0000_0000) by (nonlinear_arith)
        requires
            x == n * q + x % n,
            x % n < n,
            x >= 0x1_0000_0000_0000_0000_0000_0000_0000_0000,
            0 < n <= 0x8000_0000,
    ;
}

/// The number of whole `unit`s in a span of `delta_nanos` nanoseconds, rounded toward zero.
///
/// The span is taken as whole seconds and the nanoseconds left over; both are scaled by the
/// unit's denominator, and what the scaled seconds leave over when divided by the unit's
/// seconds is carried into the nanoseconds, so that nothing is lost to rounding.
pub fn elapsed_units(delta_nanos: i128, unit: Duration) -> (r: Result<i64, TimeError>)
    ensures
        r == elapsed_result(delta_nanos as int, unit@),
{
    let den = unit.denominator();
    let num = unit.seconds();
    if den == 0 {
        return Err(TimeError::InvalidDurationDenominator);
    }
    if num == 0 {
        return Err(TimeError::ZeroLengthUnit);
    }
    let ghost delta = delta_nanos as int;
    let span: u128 = if delta_nanos < 0 {
        (-(delta_nanos + 1)) as u128 + 1
    } else {
        delta_nanos as u128
    };
    let whole: u128 = span / 1_000_000_000;
    let part: u128 = span % 1_000_000_000;
    let n: u128 = if num < 0 {
        (-(num as i64)) as u128
    } else {
        num as u128
    };
    let d: u128 = den as u128;
    let ghost count = elapsed_count(delta, unit@);
    let ghost exact = ((whole * 1_000_000_000 + part) * d) / (n * 1_000_000_000);
    proof {
        assert(span == whole * 1_000_000_000 + part);
        assert(magnitude(delta * d) == span * d) by (nonlinear_arith)
            requires
                span == magnitude(delta),
                d > 0,
        ;
        assert(magnitude(num * 1_000_000_000) == n * 1_000_000_000);
        assert((delta * d < 0) == (delta < 0)) by (nonlinear_arith)
            requires
                d > 0,
        ;
        lemma_split_quotient(whole as int, part as int, d as int, n as int);
        assert(magnitude(count) == exact);
    }
    let whole_scaled: u128 = match whole.checked_mul(d) {
        Some(v) => v,
        None => {
            proof {
                lemma_large_quotient(whole * d, n as int);
            }
            return Err(TimeError::ArithmeticOverflow);
        },
    };
    assert(part * d < 0x1_0000_0000_0000_0000_0000) by (nonlinear_arith)
        requires
            part < 1_000_000_000,
            d < 0x1_0000_0000,
    ;
    let part_scaled: u128 = part * d;
    let carry: u128 = whole_scaled % n;
    let nanos: u128 = part_scaled + carry * 1_000_000_000;
    let whole_units: u128 = whole_scaled / n;
    if whole_units > 0x8000_0000_0000_0000 {
        return Err(TimeError::ArithmeticOverflow);
    }
    let magnitude_units: u128 = whole_units + (nanos / n) / 1_000_000_000;
    if magnitude_units > 0x8000_0000_0000_0000 {
        return Err(TimeError::ArithmeticOverflow);
    }
    let negative = (delta_nanos < 0) != (num < 0);
    if negative {
        if magnitude_units == 0x8000_0000_0000_0000 {
            Ok(i64::MIN)
        } else {
            Ok(-(magnitude_units as i64))
        }
    } else if magnitude_units == 0x8000_0000_0000_0000 {
        Err(TimeError::ArithmeticOverflow)
    } else {
        Ok(magnitude_units as i64)
    }
}

} // verus!
