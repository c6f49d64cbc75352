//! Day-of-year of a proleptic Gregorian calendar date, and foliar moisture
//! for a calendar date.
//!
//! The day-of-year computation itself is done by the julian crate; its
//! result is pinned to the specification below, and the verified seasonal
//! profile is evaluated at the resulting day number.

use vstd::prelude::*;

use crate::catalog::SCALE;
use crate::foliar_moisture::{
    foliar_moisture_at_day, spec_day_distance, spec_foliar_moisture_profile,
};

verus! {

/// Greatest year magnitude accepted for a calendar date. Far below the point
/// where the julian crate's day-number arithmetic overflows, which lies
/// beyond five million years from the epoch.
pub const YEAR_LIMIT: i32 = 1000000;

/// The Gregorian leap-year rule: every fourth year, except centuries not
/// divisible by four hundred.
pub open spec fn spec_is_leap_year(year: int) -> bool {
    year % 4 == 0 && (year % 100 != 0 || year % 400 == 0)
}

/// Length of a month (1 = January .. 12 = December) of a Gregorian year.
pub open spec fn spec_days_in_month(year: int, month: int) -> int {
    if month == 2 {
        if spec_is_leap_year(year) {
            29
        } else {
            28
        }
    } else if month == 4 || month == 6 || month == 9 || month == 11 {
        30
    } else {
        31
    }
}

/// Days of a Gregorian year that precede the first day of a month.
pub open spec fn spec_days_before_month(year: int, month: int) -> int
    decreases month,
{
    if month <= 1 {
        0
    } else {
        spec_days_before_month(year, month - 1) + spec_days_in_month(year, month - 1)
    }
}

/// One-based day of year of a Gregorian calendar date.
pub open spec fn spec_day_of_year(year: int, month: int, day: int) -> int {
    spec_days_before_month(year, month) + day
}

/// A valid calendar date: a month from 1 to 12 and a day within the month,
/// in a year whose magnitude stays within `YEAR_LIMIT`.
pub open spec fn spec_valid_date(year: int, month: int, day: int) -> bool {
    &&& -(YEAR_LIMIT as int) <= year <= YEAR_LIMIT as int
    &&& 1 <= month <= 12
    &&& 1 <= day <= spec_days_in_month(year, month)
}

/// The day of year of a valid date lies between 1 and 366.
pub proof fn lemma_day_of_year_bounds(year: int, month: int, day: int)
    requires
        spec_valid_date(year, month, day),
    ensures
        1 <= spec_day_of_year(year, month, day) <= 366,
{
    reveal_with_fuel(spec_days_before_month, 13);
}

/// Relies on the julian crate's proleptic Gregorian calendar
/// (`Calendar::GREGORIAN.at_ymd(..).ordinal()`): the ordinal of a valid date
/// is its one-based day of year under the standard month lengths and the
/// Gregorian leap-year rule. For a valid date within `YEAR_LIMIT` the
/// conversion cannot fail.
#[verifier::external_body]
fn gregorian_ordinal(year: i32, month: u8, day: u8) -> (r: u32)
    requires
        spec_valid_date(year as int, month as int, day as int),
    ensures
        r == spec_day_of_year(year as int, month as int, day as int),
{
    let month = julian::Month::try_from(month).expect("month is between 1 and 12");
    julian::Calendar::GREGORIAN
        .at_ymd(year, month, u32::from(day))
        .expect("the day is valid for the month and the year is in range")
        .ordinal()
}

/// One-based day of year of a Gregorian calendar date.
pub fn day_of_year(year: i32, month: u8, day: u8) -> (r: u32)
    requires
        spec_valid_date(year as int, month as int, day as int),
    ensures
        r == spec_day_of_year(year as int, month as int, day as int),
        1 <= r <= 366,
{
    proof {
        lemma_day_of_year_bounds(year as int, month as int, day as int);
    }
    gregorian_ordinal(year, month, day)
}

/// Foliar moisture in `SCALE` units for a Gregorian calendar date, given the
/// date of minimum foliar moisture as a day number: the seasonal profile
/// evaluated at the distance between the date's day of year and the minimum
/// date.
pub fn foliar_moisture_for_date(
    year: i32,
    month: u8,
    day: u8,
    day_of_minimum: i32,
) -> (r: u64)
    requires
        spec_valid_date(year as int, month as int, day as int),
    ensures
        r == spec_foliar_moisture_profile(
            spec_day_distance(
                spec_day_of_year(year as int, month as int, day as int),
                day_of_minimum as int,
            ),
        ),
        85 * SCALE <= r <= 120 * SCALE,
{
    let ordinal = day_of_year(year, month, day);
    foliar_moisture_at_day(ordinal as i32, day_of_minimum)
}

} // verus!
