//! Tests of the moisture codes' day-length tables: exact fixed-point
//! values, the month clamp, and the fixed equatorial factors.

use cffdrs::catalog::SCALE;
use cffdrs::day_length::{
    drought_day_length_factor, duff_day_length, DroughtLatitude, DuffLatitude,
};

#[test]
fn drought_factor_north() {
    let band = DroughtLatitude::NorthOf20N;
    assert_eq!(drought_day_length_factor(band, 1), -16000);
    assert_eq!(drought_day_length_factor(band, 4), 9000);
    assert_eq!(drought_day_length_factor(band, 7), 64000);
    assert_eq!(drought_day_length_factor(band, 7) as f64 / SCALE as f64, 6.4);
    assert_eq!(drought_day_length_factor(band, 10), 4000);
    assert_eq!(drought_day_length_factor(band, 12), -16000);
}

#[test]
fn drought_factor_south_mirrors_north() {
    // The southern factors are the northern ones shifted by half a year.
    for month in 1..=12u8 {
        let shifted = if month > 6 { month - 6 } else { month + 6 };
        assert_eq!(
            drought_day_length_factor(DroughtLatitude::SouthOf20S, month),
            drought_day_length_factor(DroughtLatitude::NorthOf20N, shifted),
        );
    }
}

#[test]
fn drought_factor_equatorial_is_fixed() {
    for month in 1..=12u8 {
        assert_eq!(
            drought_day_length_factor(DroughtLatitude::Equatorial, month),
            14000
        );
    }
}

#[test]
fn drought_factor_clamps_month() {
    let band = DroughtLatitude::SouthOf20S;
    assert_eq!(
        drought_day_length_factor(band, 0),
        drought_day_length_factor(band, 1)
    );
    assert_eq!(
        drought_day_length_factor(band, 200),
        drought_day_length_factor(band, 12)
    );
}

#[test]
fn duff_day_length_exact() {
    assert_eq!(duff_day_length(DuffLatitude::NorthOf30N, 1), 65000);
    assert_eq!(duff_day_length(DuffLatitude::NorthOf30N, 5), 139000);
    assert_eq!(duff_day_length(DuffLatitude::NorthOf30N, 12), 60000);
    assert_eq!(
        duff_day_length(DuffLatitude::NorthOf30N, 4) as f64 / SCALE as f64,
        12.8
    );
    assert_eq!(duff_day_length(DuffLatitude::North10To30, 6), 102000);
    assert_eq!(duff_day_length(DuffLatitude::South10To30, 6), 78000);
    assert_eq!(duff_day_length(DuffLatitude::SouthOf30S, 6), 62000);
    assert_eq!(duff_day_length(DuffLatitude::SouthOf30S, 12), 118000);
}

#[test]
fn duff_day_length_equatorial_is_fixed() {
    for month in 0..=255u8 {
        assert_eq!(duff_day_length(DuffLatitude::Equatorial, month), 90000);
    }
}

#[test]
fn duff_day_length_stays_in_range() {
    let bands = [
        DuffLatitude::NorthOf30N,
        DuffLatitude::North10To30,
        DuffLatitude::Equatorial,
        DuffLatitude::South10To30,
        DuffLatitude::SouthOf30S,
    ];
    for band in bands {
        for month in 1..=12u8 {
            let hours = duff_day_length(band, month);
            assert!((6 * SCALE..=139000).contains(&hours));
        }
    }
}
