//! Exact time quantities and UTC clock instants.
mod calendar;
mod clock;
mod duration;
mod elapsed;
mod error;
mod text;

pub use calendar::{
    days_before_month, days_from_ce, days_in_month, is_leap_year, is_valid_date,
    is_valid_date_time, timestamp_of, weekday_of, DayOfWeek, Month, MAX_YEAR, MIN_YEAR,
    UNIX_EPOCH_DAY,
};
pub use clock::{lemma_since_antisymmetric, lemma_since_itself_is_zero, CivilTime, Clock};
pub use duration::{
    divided, fits_duration, lemma_duration_fits, lemma_scaling_preserves_value, same_value, scaled, Duration, Ratio,
};
pub use elapsed::{elapsed_count, elapsed_result, elapsed_units, magnitude, trunc_div};
pub use error::TimeError;
pub use text::{
    date_time_text, decimal_digits, digit_char, fraction_text, integer_text, year_text, zero_padded,
};
