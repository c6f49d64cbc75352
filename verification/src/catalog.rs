//! Per-fuel-type constant tables of the FBP system.
//!
//! The published tables are decimal values with at most four decimal places,
//! so every entry is held exactly as an integer count of ten-thousandths
//! (`SCALE` units per whole unit). The tables are total over the closed
//! fuel-type enumeration; `NonFuel` rows are explicit zero entries, not a
//! fallback.

use vstd::prelude::*;

use crate::fuel::FbpFuelType;

verus! {

/// Fixed-point scale of every catalogue entry: one whole unit.
pub const SCALE: u64 = 10000;

/// Standard grass surface fuel load, in `SCALE` units of kg/m^2 (0.3): the
/// surface fuel consumed by a grass fire regardless of moisture or buildup.
pub const GRASS_FUEL_LOAD: u64 = 3000;

/// Spread-rate coefficients of one fuel type, in `SCALE` units: the rate of
/// spread index is `a * (1 - exp(-b * isi))^c`.
#[derive(PartialEq, Eq, Copy, Clone, Debug, Structural)]
pub struct RateOfSpreadParams {
    pub a: u64,
    pub b: u64,
    pub c: u64,
}

impl RateOfSpreadParams {
    pub fn new(a: u64, b: u64, c: u64) -> (r: Self)
        ensures
            r.a == a,
            r.b == b,
            r.c == c,
    {
        Self { a, b, c }
    }
}

/// Spread-rate coefficients `(a, b, c)` per fuel type, in `SCALE` units.
/// M1 and M2 have no coefficients of their own: their spread index is a
/// blend of the C2 and D1 results, so their row is zero, as is `NonFuel`'s.
pub open spec fn spec_rate_of_spread_params(fuel_type: FbpFuelType) -> RateOfSpreadParams {
    match fuel_type {
        FbpFuelType::C1 => RateOfSpreadParams { a: 900000, b: 649, c: 45000 },
        FbpFuelType::C2 => RateOfSpreadParams { a: 1100000, b: 282, c: 15000 },
        FbpFuelType::C3 => RateOfSpreadParams { a: 1100000, b: 444, c: 30000 },
        FbpFuelType::C4 => RateOfSpreadParams { a: 1100000, b: 293, c: 15000 },
        FbpFuelType::C5 => RateOfSpreadParams { a: 300000, b: 697, c: 40000 },
        FbpFuelType::C6 => RateOfSpreadParams { a: 300000, b: 800, c: 30000 },
        FbpFuelType::C7 => RateOfSpreadParams { a: 450000, b: 305, c: 20000 },
        FbpFuelType::M3 => RateOfSpreadParams { a: 1200000, b: 572, c: 14000 },
        FbpFuelType::M4 => RateOfSpreadParams { a: 1000000, b: 404, c: 14800 },
        FbpFuelType::D1 => RateOfSpreadParams { a: 300000, b: 232, c: 16000 },
        FbpFuelType::S1 => RateOfSpreadParams { a: 750000, b: 297, c: 13000 },
        FbpFuelType::S2 => RateOfSpreadParams { a: 400000, b: 438, c: 17000 },
        FbpFuelType::S3 => RateOfSpreadParams { a: 550000, b: 829, c: 32000 },
        FbpFuelType::O1a => RateOfSpreadParams { a: 1900000, b: 310, c: 14000 },
        FbpFuelType::O1b => RateOfSpreadParams { a: 2500000, b: 350, c: 17000 },
        FbpFuelType::M1 | FbpFuelType::M2 | FbpFuelType::NonFuel => RateOfSpreadParams {
            a: 0,
            b: 0,
            c: 0,
        },
    }
}

/// Spread-rate coefficients `(a, b, c)` per fuel type, in `SCALE` units.
pub fn rate_of_spread_params(fuel_type: FbpFuelType) -> (r: RateOfSpreadParams)
    ensures
        r == spec_rate_of_spread_params(fuel_type),
{
    match fuel_type {
        FbpFuelType::C1 => RateOfSpreadParams::new(900000, 649, 45000),
        FbpFuelType::C2 => RateOfSpreadParams::new(1100000, 282, 15000),
        FbpFuelType::C3 => RateOfSpreadParams::new(1100000, 444, 30000),
        FbpFuelType::C4 => RateOfSpreadParams::new(1100000, 293, 15000),
        FbpFuelType::C5 => RateOfSpreadParams::new(300000, 697, 40000),
        FbpFuelType::C6 => RateOfSpreadParams::new(300000, 800, 30000),
        FbpFuelType::C7 => RateOfSpreadParams::new(450000, 305, 20000),
        FbpFuelType::M3 => RateOfSpreadParams::new(1200000, 572, 14000),
        FbpFuelType::M4 => RateOfSpreadParams::new(1000000, 404, 14800),
        FbpFuelType::D1 => RateOfSpreadParams::new(300000, 232, 16000),
        FbpFuelType::S1 => RateOfSpreadParams::new(750000, 297, 13000),
        FbpFuelType::S2 => RateOfSpreadParams::new(400000, 438, 17000),
        FbpFuelType::S3 => RateOfSpreadParams::new(550000, 829, 32000),
        FbpFuelType::O1a => RateOfSpreadParams::new(1900000, 310, 14000),
        FbpFuelType::O1b => RateOfSpreadParams::new(2500000, 350, 17000),
        FbpFuelType::M1 | FbpFuelType::M2 | FbpFuelType::NonFuel => {
            RateOfSpreadParams::new(0, 0, 0)
        },
    }
}

/// Average buildup index per fuel type, in `SCALE` units. Zero only for
/// `NonFuel`, where the buildup effect degenerates to no damping.
pub open spec fn spec_buildup_average(fuel_type: FbpFuelType) -> u64 {
    match fuel_type {
        FbpFuelType::C1 => 720000,
        FbpFuelType::C2 => 640000,
        FbpFuelType::C3 => 620000,
        FbpFuelType::C4 => 660000,
        FbpFuelType::C5 => 560000,
        FbpFuelType::C6 => 620000,
        FbpFuelType::C7 => 1060000,
        FbpFuelType::D1 => 320000,
        FbpFuelType::M1 => 500000,
        FbpFuelType::M2 => 500000,
        FbpFuelType::M3 => 500000,
        FbpFuelType::M4 => 500000,
        FbpFuelType::S1 => 380000,
        FbpFuelType::S2 => 630000,
        FbpFuelType::S3 => 310000,
        FbpFuelType::O1a => 10000,
        FbpFuelType::O1b => 10000,
        FbpFuelType::NonFuel => 0,
    }
}

/// Average buildup index per fuel type, in `SCALE` units.
pub fn buildup_average(fuel_type: FbpFuelType) -> (r: u64)
    ensures
        r == spec_buildup_average(fuel_type),
{
    match fuel_type {
        FbpFuelType::C1 => 720000,
        FbpFuelType::C2 => 640000,
        FbpFuelType::C3 => 620000,
        FbpFuelType::C4 => 660000,
        FbpFuelType::C5 => 560000,
        FbpFuelType::C6 => 620000,
        FbpFuelType::C7 => 1060000,
        FbpFuelType::D1 => 320000,
        FbpFuelType::M1 => 500000,
        FbpFuelType::M2 => 500000,
        FbpFuelType::M3 => 500000,
        FbpFuelType::M4 => 500000,
        FbpFuelType::S1 => 380000,
        FbpFuelType::S2 => 630000,
        FbpFuelType::S3 => 310000,
        FbpFuelType::O1a => 10000,
        FbpFuelType::O1b => 10000,
        FbpFuelType::NonFuel => 0,
    }
}

/// Moisture-damping exponent `q` per fuel type, in `SCALE` units. Never
/// above one whole unit; exactly one for grass, where buildup damping
/// degenerates to no effect.
pub open spec fn spec_damping_exponent(fuel_type: FbpFuelType) -> u64 {
    match fuel_type {
        FbpFuelType::C1 => 9000,
        FbpFuelType::C2 => 7000,
        FbpFuelType::C3 => 7500,
        FbpFuelType::C4 => 8000,
        FbpFuelType::C5 => 8000,
        FbpFuelType::C6 => 8000,
        FbpFuelType::C7 => 8500,
        FbpFuelType::D1 => 9000,
        FbpFuelType::M1 => 8000,
        FbpFuelType::M2 => 8000,
        FbpFuelType::M3 => 8000,
        FbpFuelType::M4 => 8000,
        FbpFuelType::S1 => 7500,
        FbpFuelType::S2 => 7500,
        FbpFuelType::S3 => 7500,
        FbpFuelType::O1a => 10000,
        FbpFuelType::O1b => 10000,
        FbpFuelType::NonFuel => 0,
    }
}

/// Moisture-damping exponent `q` per fuel type, in `SCALE` units.
pub fn damping_exponent(fuel_type: FbpFuelType) -> (r: u64)
    ensures
        r == spec_damping_exponent(fuel_type),
        r <= SCALE,
{
    match fuel_type {
        FbpFuelType::C1 => 9000,
        FbpFuelType::C2 => 7000,
        FbpFuelType::C3 => 7500,
        FbpFuelType::C4 => 8000,
        FbpFuelType::C5 => 8000,
        FbpFuelType::C6 => 8000,
        FbpFuelType::C7 => 8500,
        FbpFuelType::D1 => 9000,
        FbpFuelType::M1 => 8000,
        FbpFuelType::M2 => 8000,
        FbpFuelType::M3 => 8000,
        FbpFuelType::M4 => 8000,
        FbpFuelType::S1 => 7500,
        FbpFuelType::S2 => 7500,
        FbpFuelType::S3 => 7500,
        FbpFuelType::O1a => 10000,
        FbpFuelType::O1b => 10000,
        FbpFuelType::NonFuel => 0,
    }
}

/// Ceiling on the buildup effect per fuel type, in `SCALE` units. The damped
/// spread multiplier is capped at this value; one whole unit for grass, so
/// the cap never amplifies a grass fire.
pub open spec fn spec_buildup_effect_maximum(fuel_type: FbpFuelType) -> u64 {
    match fuel_type {
        FbpFuelType::C1 => 10760,
        FbpFuelType::C2 => 13210,
        FbpFuelType::C3 => 12610,
        FbpFuelType::C4 => 11840,
        FbpFuelType::C5 => 12200,
        FbpFuelType::C6 => 11970,
        FbpFuelType::C7 => 11340,
        FbpFuelType::D1 => 11790,
        FbpFuelType::M1 => 12500,
        FbpFuelType::M2 => 12500,
        FbpFuelType::M3 => 12500,
        FbpFuelType::M4 => 12500,
        FbpFuelType::S1 => 14600,
        FbpFuelType::S2 => 12560,
        FbpFuelType::S3 => 15900,
        FbpFuelType::O1a => 10000,
        FbpFuelType::O1b => 10000,
        FbpFuelType::NonFuel => 0,
    }
}

/// Ceiling on the buildup effect per fuel type, in `SCALE` units.
pub fn buildup_effect_maximum(fuel_type: FbpFuelType) -> (r: u64)
    ensures
        r == spec_buildup_effect_maximum(fuel_type),
{
    match fuel_type {
        FbpFuelType::C1 => 10760,
        FbpFuelType::C2 => 13210,
        FbpFuelType::C3 => 12610,
        FbpFuelType::C4 => 11840,
        FbpFuelType::C5 => 12200,
        FbpFuelType::C6 => 11970,
        FbpFuelType::C7 => 11340,
        FbpFuelType::D1 => 11790,
        FbpFuelType::M1 => 12500,
        FbpFuelType::M2 => 12500,
        FbpFuelType::M3 => 12500,
        FbpFuelType::M4 => 12500,
        FbpFuelType::S1 => 14600,
        FbpFuelType::S2 => 12560,
        FbpFuelType::S3 => 15900,
        FbpFuelType::O1a => 10000,
        FbpFuelType::O1b => 10000,
        FbpFuelType::NonFuel => 0,
    }
}

/// Crown fuel load per fuel type, in `SCALE` units of kg/m^2. Zero for fuel
/// types with no crown layer worth counting (deciduous, slash, grass) and
/// for `NonFuel`.
pub open spec fn spec_crown_fuel_load(fuel_type: FbpFuelType) -> u64 {
    match fuel_type {
        FbpFuelType::C1 => 7500,
        FbpFuelType::C2 => 8000,
        FbpFuelType::C3 => 11500,
        FbpFuelType::C4 => 12000,
        FbpFuelType::C5 => 12000,
        FbpFuelType::C6 => 18000,
        FbpFuelType::C7 => 5000,
        FbpFuelType::M1 => 8000,
        FbpFuelType::M2 => 8000,
        FbpFuelType::M3 => 8000,
        FbpFuelType::M4 => 8000,
        FbpFuelType::D1 => 0,
        FbpFuelType::S1 => 0,
        FbpFuelType::S2 => 0,
        FbpFuelType::S3 => 0,
        FbpFuelType::O1a => 0,
        FbpFuelType::O1b => 0,
        FbpFuelType::NonFuel => 0,
    }
}

/// Crown fuel load per fuel type, in `SCALE` units of kg/m^2.
pub fn crown_fuel_load(fuel_type: FbpFuelType) -> (r: u64)
    ensures
        r == spec_crown_fuel_load(fuel_type),
{
    match fuel_type {
        FbpFuelType::C1 => 7500,
        FbpFuelType::C2 => 8000,
        FbpFuelType::C3 => 11500,
        FbpFuelType::C4 => 12000,
        FbpFuelType::C5 => 12000,
        FbpFuelType::C6 => 18000,
        FbpFuelType::C7 => 5000,
        FbpFuelType::M1 => 8000,
        FbpFuelType::M2 => 8000,
        FbpFuelType::M3 => 8000,
        FbpFuelType::M4 => 8000,
        FbpFuelType::D1 => 0,
        FbpFuelType::S1 => 0,
        FbpFuelType::S2 => 0,
        FbpFuelType::S3 => 0,
        FbpFuelType::O1a => 0,
        FbpFuelType::O1b => 0,
        FbpFuelType::NonFuel => 0,
    }
}

/// Crown base height per fuel type, in `SCALE` units of metres. `None` for
/// C6, whose crown base height is not a constant: it is computed from stand
/// height and stand density. Zero for fuel types that carry no crown.
pub open spec fn spec_crown_base_height(fuel_type: FbpFuelType) -> Option<u64> {
    match fuel_type {
        FbpFuelType::C6 => None,
        FbpFuelType::C1 => Some(20000u64),
        FbpFuelType::C2 => Some(30000u64),
        FbpFuelType::C3 => Some(80000u64),
        FbpFuelType::C4 => Some(40000u64),
        FbpFuelType::C5 => Some(180000u64),
        FbpFuelType::C7 => Some(100000u64),
        FbpFuelType::M1 => Some(60000u64),
        FbpFuelType::M2 => Some(60000u64),
        FbpFuelType::M3 => Some(60000u64),
        FbpFuelType::M4 => Some(60000u64),
        FbpFuelType::D1 => Some(0u64),
        FbpFuelType::S1 => Some(0u64),
        FbpFuelType::S2 => Some(0u64),
        FbpFuelType::S3 => Some(0u64),
        FbpFuelType::O1a => Some(0u64),
        FbpFuelType::O1b => Some(0u64),
        FbpFuelType::NonFuel => Some(0u64),
    }
}

/// Crown base height per fuel type, in `SCALE` units of metres.
pub fn crown_base_height(fuel_type: FbpFuelType) -> (r: Option<u64>)
    ensures
        r == spec_crown_base_height(fuel_type),
{
    match fuel_type {
        FbpFuelType::C6 => None,
        FbpFuelType::C1 => Some(20000),
        FbpFuelType::C2 => Some(30000),
        FbpFuelType::C3 => Some(80000),
        FbpFuelType::C4 => Some(40000),
        FbpFuelType::C5 => Some(180000),
        FbpFuelType::C7 => Some(100000),
        FbpFuelType::M1 => Some(60000),
        FbpFuelType::M2 => Some(60000),
        FbpFuelType::M3 => Some(60000),
        FbpFuelType::M4 => Some(60000),
        FbpFuelType::D1 => Some(0),
        FbpFuelType::S1 => Some(0),
        FbpFuelType::S2 => Some(0),
        FbpFuelType::S3 => Some(0),
        FbpFuelType::O1a => Some(0),
        FbpFuelType::O1b => Some(0),
        FbpFuelType::NonFuel => Some(0),
    }
}

/// `NonFuel` is inert: every catalogue entry of the sentinel is zero, so
/// each formula built on the tables yields its degenerate value there.
pub proof fn lemma_non_fuel_entries_zero()
    ensures
        spec_rate_of_spread_params(FbpFuelType::NonFuel) == (RateOfSpreadParams {
            a: 0u64,
            b: 0u64,
            c: 0u64,
        }),
        spec_buildup_average(FbpFuelType::NonFuel) == 0,
        spec_damping_exponent(FbpFuelType::NonFuel) == 0,
        spec_buildup_effect_maximum(FbpFuelType::NonFuel) == 0,
        spec_crown_fuel_load(FbpFuelType::NonFuel) == 0,
        spec_crown_base_height(FbpFuelType::NonFuel) == Some(0u64),
{
}

/// The boreal mixedwood types carry no spread coefficients of their own:
/// their spread index is a blend of the C2 and D1 results, never a direct
/// evaluation, so their coefficient row is zero while C2's and D1's are not.
pub proof fn lemma_boreal_mixedwood_blends(fuel_type: FbpFuelType)
    ensures
        fuel_type.spec_is_boreal_mixedwood() ==> spec_rate_of_spread_params(fuel_type)
            == (RateOfSpreadParams { a: 0u64, b: 0u64, c: 0u64 }),
        spec_rate_of_spread_params(FbpFuelType::C2).a != 0,
        spec_rate_of_spread_params(FbpFuelType::D1).a != 0,
{
}

/// The buildup average is zero exactly for `NonFuel`: for every named fuel
/// type the buildup effect has a well-defined damping curve, and for
/// `NonFuel` alone it degenerates to no damping.
pub proof fn lemma_buildup_average_zero_iff_non_fuel(fuel_type: FbpFuelType)
    ensures
        spec_buildup_average(fuel_type) == 0 <==> fuel_type == FbpFuelType::NonFuel,
{
}

/// The moisture-damping exponent never exceeds one whole unit, and equals
/// one exactly on the grass types, where damping degenerates to no effect
/// for every buildup index.
pub proof fn lemma_damping_exponent_bounds(fuel_type: FbpFuelType)
    ensures
        spec_damping_exponent(fuel_type) <= SCALE,
        fuel_type.spec_is_grass() ==> spec_damping_exponent(fuel_type) == SCALE,
        fuel_type.spec_is_grass() ==> spec_buildup_effect_maximum(fuel_type) == SCALE,
{
}

} // verus!
