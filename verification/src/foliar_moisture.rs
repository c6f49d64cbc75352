//! Seasonal profile of foliar moisture content.
//!
//! Foliar moisture follows a parabola-shaped seasonal curve in the number of
//! days between the day of year and the date of minimum moisture: a floor of
//! 85 at the minimum date, a quadratic rise within 30 days of it, a
//! transitional quadratic between 30 and 50 days, and a cap of 120 from 50
//! days onward. The day distance is an integer, so the profile is evaluated
//! exactly in `SCALE` units; only the latitude-dependent choice of the
//! minimum date needs continuous arithmetic and stays with the caller.

use vstd::prelude::*;

use crate::catalog::SCALE;

verus! {

/// Foliar moisture in `SCALE` units at `nd` days from the date of minimum
/// foliar moisture: `85 + 0.0189 nd^2` within 30 days, `32.9 + 3.17 nd -
/// 0.0288 nd^2` from 30 to 50 days, and the cap 120 beyond.
pub open spec fn spec_foliar_moisture_profile(nd: int) -> int {
    if nd < 30 {
        850000 + 189 * (nd * nd)
    } else if nd < 50 {
        329000 + 31700 * nd - 288 * (nd * nd)
    } else {
        1200000
    }
}

/// The profile stays between the floor of 85 and the cap of 120 (in `SCALE`
/// units) for every day distance, and sits exactly at the cap from 50 days
/// onward.
pub proof fn lemma_profile_bounds(nd: int)
    requires
        0 <= nd,
    ensures
        85 * SCALE <= spec_foliar_moisture_profile(nd) <= 120 * SCALE,
        nd >= 50 ==> spec_foliar_moisture_profile(nd) == 120 * SCALE,
        nd < 50 ==> spec_foliar_moisture_profile(nd) < 120 * SCALE,
{
    if nd < 30 {
        assert(0 <= 189 * (nd * nd) && 189 * (nd * nd) <= 350000) by (nonlinear_arith)
            requires 0 <= nd < 30;
    } else if nd < 50 {
        assert(329000 + 31700 * nd - 288 * (nd * nd) >= 850000) by (nonlinear_arith)
            requires 30 <= nd < 50;
        assert(329000 + 31700 * nd - 288 * (nd * nd) <= 1190812) by (nonlinear_arith)
            requires 30 <= nd < 50;
    }
}

/// Moving further from the date of minimum moisture never lowers the
/// profile: the seasonal curve rises monotonically from floor to cap on
/// both sides of the minimum.
pub proof fn lemma_profile_monotone(n1: int, n2: int)
    requires
        0 <= n1 <= n2,
    ensures
        spec_foliar_moisture_profile(n1) <= spec_foliar_moisture_profile(n2),
{
    lemma_profile_bounds(n1);
    lemma_profile_bounds(n2);
    if n2 < 30 {
        assert(189 * (n1 * n1) <= 189 * (n2 * n2)) by (nonlinear_arith)
            requires 0 <= n1 <= n2;
    } else if n1 < 30 && n2 < 50 {
        assert(850000 + 189 * (n1 * n1) <= 329000 + 31700 * n2 - 288 * (n2 * n2)) by (nonlinear_arith)
            requires 0 <= n1 < 30 && 30 <= n2 < 50;
    } else if 30 <= n1 && n2 < 50 {
        assert(329000 + 31700 * n1 - 288 * (n1 * n1) <= 329000 + 31700 * n2 - 288 * (n2 * n2))
            by (nonlinear_arith)
            requires 30 <= n1 <= n2 < 50;
    }
}

/// Foliar moisture in `SCALE` units at `nd` days from the date of minimum
/// foliar moisture.
pub fn foliar_moisture_profile(nd: u64) -> (r: u64)
    ensures
        r == spec_foliar_moisture_profile(nd as int),
        85 * SCALE <= r <= 120 * SCALE,
        nd >= 50 ==> r == 120 * SCALE,
        nd < 50 ==> r < 120 * SCALE,
{
    proof {
        lemma_profile_bounds(nd as int);
    }
    if nd < 30 {
        assert(nd * nd < 900) by (nonlinear_arith)
            requires nd < 30;
        let sq: u64 = nd * nd;
        850000 + 189 * sq
    } else if nd < 50 {
        assert(nd * nd < 2500) by (nonlinear_arith)
            requires nd < 50;
        let sq: u64 = nd * nd;
        assert(288 * sq <= 31700 * nd) by (nonlinear_arith)
            requires sq == nd * nd && 30 <= nd < 50;
        329000 + 31700 * nd - 288 * sq
    } else {
        1200000
    }
}

/// Number of days between a day of year and the date of minimum foliar
/// moisture, both as day numbers.
pub open spec fn spec_day_distance(day_of_year: int, day_of_minimum: int) -> int {
    if day_of_year >= day_of_minimum {
        day_of_year - day_of_minimum
    } else {
        day_of_minimum - day_of_year
    }
}

/// Number of days between a day of year and the date of minimum foliar
/// moisture.
pub fn days_from_minimum(day_of_year: i32, day_of_minimum: i32) -> (r: u64)
    ensures
        r == spec_day_distance(day_of_year as int, day_of_minimum as int),
{
    let day: i64 = day_of_year as i64;
    let min_day: i64 = day_of_minimum as i64;
    if day >= min_day {
        (day - min_day) as u64
    } else {
        (min_day - day) as u64
    }
}

/// Foliar moisture in `SCALE` units for a day of year, given the date of
/// minimum foliar moisture as a day number: the profile evaluated at the
/// distance between the two days.
pub fn foliar_moisture_at_day(day_of_year: i32, day_of_minimum: i32) -> (r: u64)
    ensures
        r == spec_foliar_moisture_profile(
            spec_day_distance(day_of_year as int, day_of_minimum as int),
        ),
        85 * SCALE <= r <= 120 * SCALE,
{
    let nd = days_from_minimum(day_of_year, day_of_minimum);
    foliar_moisture_profile(nd)
}

} // verus!
