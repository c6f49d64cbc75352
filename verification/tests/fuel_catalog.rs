//! Tests of the fuel-type catalogue: classification, the constant tables in
//! fixed point, and the inert `NonFuel` row.

use cffdrs::catalog::{
    buildup_average, buildup_effect_maximum, crown_base_height, crown_fuel_load,
    damping_exponent, rate_of_spread_params, RateOfSpreadParams, SCALE,
};
use cffdrs::fuel::{FbpFuelType, FuelClass};

const ALL_FUEL_TYPES: [FbpFuelType; 18] = [
    FbpFuelType::C1,
    FbpFuelType::C2,
    FbpFuelType::C3,
    FbpFuelType::C4,
    FbpFuelType::C5,
    FbpFuelType::C6,
    FbpFuelType::C7,
    FbpFuelType::M1,
    FbpFuelType::M2,
    FbpFuelType::M3,
    FbpFuelType::M4,
    FbpFuelType::D1,
    FbpFuelType::S1,
    FbpFuelType::S2,
    FbpFuelType::S3,
    FbpFuelType::O1a,
    FbpFuelType::O1b,
    FbpFuelType::NonFuel,
];

#[test]
fn fuel_classes() {
    assert_eq!(FbpFuelType::C1.class(), FuelClass::Conifer);
    assert_eq!(FbpFuelType::C6.class(), FuelClass::Conifer);
    assert_eq!(FbpFuelType::M1.class(), FuelClass::Mixedwood);
    assert_eq!(FbpFuelType::M4.class(), FuelClass::Mixedwood);
    assert_eq!(FbpFuelType::D1.class(), FuelClass::Deciduous);
    assert_eq!(FbpFuelType::S2.class(), FuelClass::Slash);
    assert_eq!(FbpFuelType::O1a.class(), FuelClass::Grass);
    assert_eq!(FbpFuelType::O1b.class(), FuelClass::Grass);
    assert_eq!(FbpFuelType::NonFuel.class(), FuelClass::NonFuel);
}

#[test]
fn class_counts() {
    let mut conifer = 0;
    let mut mixedwood = 0;
    let mut deciduous = 0;
    let mut slash = 0;
    let mut grass = 0;
    let mut non_fuel = 0;
    for ft in ALL_FUEL_TYPES {
        match ft.class() {
            FuelClass::Conifer => conifer += 1,
            FuelClass::Mixedwood => mixedwood += 1,
            FuelClass::Deciduous => deciduous += 1,
            FuelClass::Slash => slash += 1,
            FuelClass::Grass => grass += 1,
            FuelClass::NonFuel => non_fuel += 1,
        }
    }
    assert_eq!(
        (conifer, mixedwood, deciduous, slash, grass, non_fuel),
        (7, 4, 1, 3, 2, 1)
    );
}

#[test]
fn grouping_predicates() {
    for ft in ALL_FUEL_TYPES {
        assert_eq!(ft.is_grass(), ft.class() == FuelClass::Grass);
        assert_eq!(ft.is_mixedwood(), ft.class() == FuelClass::Mixedwood);
        assert_eq!(
            ft.is_boreal_mixedwood(),
            matches!(ft, FbpFuelType::M1 | FbpFuelType::M2)
        );
        assert_eq!(
            ft.is_dead_fir_mixedwood(),
            matches!(ft, FbpFuelType::M3 | FbpFuelType::M4)
        );
    }
    assert!(FbpFuelType::C1.has_fixed_acceleration());
    assert!(FbpFuelType::D1.has_fixed_acceleration());
    assert!(FbpFuelType::S3.has_fixed_acceleration());
    assert!(FbpFuelType::O1b.has_fixed_acceleration());
    assert!(!FbpFuelType::C2.has_fixed_acceleration());
    assert!(!FbpFuelType::M3.has_fixed_acceleration());
    assert!(!FbpFuelType::NonFuel.has_fixed_acceleration());
}

#[test]
fn spread_coefficients_exact() {
    // Spot checks against the published table, in whole units.
    let c3 = rate_of_spread_params(FbpFuelType::C3);
    assert_eq!((c3.a, c3.b, c3.c), (1100000, 444, 30000));
    assert_eq!(c3.a as f64 / SCALE as f64, 110.0);
    assert_eq!(c3.b as f64 / SCALE as f64, 0.0444);
    assert_eq!(c3.c as f64 / SCALE as f64, 3.0);

    let o1b = rate_of_spread_params(FbpFuelType::O1b);
    assert_eq!((o1b.a, o1b.b, o1b.c), (2500000, 350, 17000));

    let m4 = rate_of_spread_params(FbpFuelType::M4);
    assert_eq!(m4.c as f64 / SCALE as f64, 1.48);

    // M1 and M2 blend C2 and D1 instead of carrying their own coefficients.
    assert_eq!(
        rate_of_spread_params(FbpFuelType::M1),
        RateOfSpreadParams::new(0, 0, 0)
    );
    assert_eq!(
        rate_of_spread_params(FbpFuelType::M2),
        RateOfSpreadParams::new(0, 0, 0)
    );
}

#[test]
fn buildup_table_exact() {
    assert_eq!(buildup_average(FbpFuelType::C3), 62 * SCALE);
    assert_eq!(buildup_average(FbpFuelType::C7), 106 * SCALE);
    assert_eq!(buildup_average(FbpFuelType::O1a), SCALE);
    assert_eq!(damping_exponent(FbpFuelType::C2), 7000);
    assert_eq!(damping_exponent(FbpFuelType::C3) as f64 / SCALE as f64, 0.75);
    assert_eq!(buildup_effect_maximum(FbpFuelType::S3) as f64 / SCALE as f64, 1.59);
    for ft in ALL_FUEL_TYPES {
        assert!(damping_exponent(ft) <= SCALE);
        if ft.is_grass() {
            assert_eq!(damping_exponent(ft), SCALE);
            assert_eq!(buildup_effect_maximum(ft), SCALE);
        }
        assert_eq!(buildup_average(ft) == 0, ft == FbpFuelType::NonFuel);
    }
}

#[test]
fn crown_tables_exact() {
    assert_eq!(crown_fuel_load(FbpFuelType::C6) as f64 / SCALE as f64, 1.8);
    assert_eq!(crown_fuel_load(FbpFuelType::C7) as f64 / SCALE as f64, 0.5);
    assert_eq!(crown_fuel_load(FbpFuelType::D1), 0);
    assert_eq!(crown_base_height(FbpFuelType::C5), Some(18 * SCALE));
    assert_eq!(crown_base_height(FbpFuelType::M2), Some(6 * SCALE));
    assert_eq!(crown_base_height(FbpFuelType::O1a), Some(0));
    // C6's crown base height is stand-dependent, not a table entry.
    assert_eq!(crown_base_height(FbpFuelType::C6), None);
}

#[test]
fn non_fuel_row_is_zero() {
    assert_eq!(
        rate_of_spread_params(FbpFuelType::NonFuel),
        RateOfSpreadParams::new(0, 0, 0)
    );
    assert_eq!(buildup_average(FbpFuelType::NonFuel), 0);
    assert_eq!(damping_exponent(FbpFuelType::NonFuel), 0);
    assert_eq!(buildup_effect_maximum(FbpFuelType::NonFuel), 0);
    assert_eq!(crown_fuel_load(FbpFuelType::NonFuel), 0);
    assert_eq!(crown_base_height(FbpFuelType::NonFuel), Some(0));
}
