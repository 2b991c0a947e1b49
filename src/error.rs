use vstd::prelude::*;

verus! {

/// The ways a time computation can fail.
#[derive(Debug, Clone, Copy, PartialEq, Eq, Structural)]
pub enum TimeError {
    /// Calendar fields that do not form a date and time of day.
    InvalidCalendarDate,
    /// A duration with a zero denominator was used, or would be produced.
    InvalidDurationDenominator,
    /// A duration of zero length was used as the unit of a count.
    ZeroLengthUnit,
    /// A result that does not fit its integer type.
    ArithmeticOverflow,
    /// An ordinal outside the range of a month or weekday.
    InvalidEnumerationMapping,
}

} // verus!
