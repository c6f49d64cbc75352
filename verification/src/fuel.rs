//! The closed set of FBP fuel types and their grouping into fuel classes.
//!
//! Every formula of the prediction system dispatches on this enumeration:
//! the mixedwood types are blends of conifer and deciduous behaviour, the
//! grass types carry a curing factor, and `NonFuel` is an explicit inert
//! terminal case rather than an error.

use vstd::prelude::*;

verus! {

/// Fuel type identifiers of the Fire Behaviour Prediction system.
#[derive(PartialEq, Eq, Hash, Copy, Clone, Debug, Structural)]
pub enum FbpFuelType {
    /// Spruce-Lichen Woodland
    C1,
    /// Boreal Spruce
    C2,
    /// Mature Jack or Lodgepole Pine
    C3,
    /// Immature Jack or Lodgepole Pine
    C4,
    /// Red and White Pine
    C5,
    /// Conifer Plantation
    C6,
    /// Ponderosa Pine-Douglas-fir
    C7,
    /// Boreal Mixedwood
    M1,
    /// Boreal Mixedwood
    M2,
    /// Dead Balsam Fir Mixedwood
    M3,
    /// Dead Balsam Fir Mixedwood
    M4,
    /// Leafless Aspen
    D1,
    /// Jack or Lodgepole Pine Slash
    S1,
    /// White Spruce-Balsam Slash
    S2,
    /// Coastal Cedar-Hemlock-Douglas fir Slash
    S3,
    /// Grass
    O1a,
    /// Grass
    O1b,
    /// Non-fuel
    NonFuel,
}

/// The broad fuel classes of the system. Each fuel type belongs to exactly
/// one class, so the classes partition the closed enumeration.
#[derive(PartialEq, Eq, Hash, Copy, Clone, Debug, Structural)]
pub enum FuelClass {
    /// C1-C7
    Conifer,
    /// M1-M4
    Mixedwood,
    /// D1
    Deciduous,
    /// S1-S3
    Slash,
    /// O1a and O1b
    Grass,
    /// The inert sentinel
    NonFuel,
}

impl FbpFuelType {
    /// The class a fuel type belongs to.
    pub open spec fn spec_class(self) -> FuelClass {
        match self {
            FbpFuelType::C1
            | FbpFuelType::C2
            | FbpFuelType::C3
            | FbpFuelType::C4
            | FbpFuelType::C5
            | FbpFuelType::C6
            | FbpFuelType::C7 => FuelClass::Conifer,
            FbpFuelType::M1 | FbpFuelType::M2 | FbpFuelType::M3 | FbpFuelType::M4 => {
                FuelClass::Mixedwood
            },
            FbpFuelType::D1 => FuelClass::Deciduous,
            FbpFuelType::S1 | FbpFuelType::S2 | FbpFuelType::S3 => FuelClass::Slash,
            FbpFuelType::O1a | FbpFuelType::O1b => FuelClass::Grass,
            FbpFuelType::NonFuel => FuelClass::NonFuel,
        }
    }

    /// The class a fuel type belongs to.
    pub fn class(self) -> (r: FuelClass)
        ensures
            r == self.spec_class(),
    {
        match self {
            FbpFuelType::C1
            | FbpFuelType::C2
            | FbpFuelType::C3
            | FbpFuelType::C4
            | FbpFuelType::C5
            | FbpFuelType::C6
            | FbpFuelType::C7 => FuelClass::Conifer,
            FbpFuelType::M1 | FbpFuelType::M2 | FbpFuelType::M3 | FbpFuelType::M4 => {
                FuelClass::Mixedwood
            },
            FbpFuelType::D1 => FuelClass::Deciduous,
            FbpFuelType::S1 | FbpFuelType::S2 | FbpFuelType::S3 => FuelClass::Slash,
            FbpFuelType::O1a | FbpFuelType::O1b => FuelClass::Grass,
            FbpFuelType::NonFuel => FuelClass::NonFuel,
        }
    }

    /// Grass fuel types carry a curing factor and a fixed fuel load.
    pub open spec fn spec_is_grass(self) -> bool {
        self.spec_class() == FuelClass::Grass
    }

    /// Grass fuel types carry a curing factor and a fixed fuel load.
    pub fn is_grass(self) -> (r: bool)
        ensures
            r == self.spec_is_grass(),
    {
        matches!(self, FbpFuelType::O1a | FbpFuelType::O1b)
    }

    /// Mixedwood types blend conifer and deciduous spread behaviour.
    pub open spec fn spec_is_mixedwood(self) -> bool {
        self.spec_class() == FuelClass::Mixedwood
    }

    /// Mixedwood types blend conifer and deciduous spread behaviour.
    pub fn is_mixedwood(self) -> (r: bool)
        ensures
            r == self.spec_is_mixedwood(),
    {
        matches!(
            self,
            FbpFuelType::M1 | FbpFuelType::M2 | FbpFuelType::M3 | FbpFuelType::M4
        )
    }

    /// Boreal mixedwood (M1, M2): blends C2 with D1, weighted by the percent
    /// conifer, and counts the conifer share of crown consumption.
    pub open spec fn spec_is_boreal_mixedwood(self) -> bool {
        self == FbpFuelType::M1 || self == FbpFuelType::M2
    }

    /// Boreal mixedwood (M1, M2): blends C2 with D1, weighted by the percent
    /// conifer, and counts the conifer share of crown consumption.
    pub fn is_boreal_mixedwood(self) -> (r: bool)
        ensures
            r == self.spec_is_boreal_mixedwood(),
    {
        matches!(self, FbpFuelType::M1 | FbpFuelType::M2)
    }

    /// Dead balsam fir mixedwood (M3, M4): blends its own coefficients with
    /// D1, weighted by the percent dead fir, and counts the dead-fir share of
    /// crown consumption.
    pub open spec fn spec_is_dead_fir_mixedwood(self) -> bool {
        self == FbpFuelType::M3 || self == FbpFuelType::M4
    }

    /// Dead balsam fir mixedwood (M3, M4): blends its own coefficients with
    /// D1, weighted by the percent dead fir, and counts the dead-fir share of
    /// crown consumption.
    pub fn is_dead_fir_mixedwood(self) -> (r: bool)
        ensures
            r == self.spec_is_dead_fir_mixedwood(),
    {
        matches!(self, FbpFuelType::M3 | FbpFuelType::M4)
    }

    /// Fuel types whose head fire accelerates at the fixed open-fuel rate in
    /// the distance-over-time formula, independent of crown involvement:
    /// C1, D1, the slash types and the grass types.
    pub open spec fn spec_has_fixed_acceleration(self) -> bool {
        ||| self == FbpFuelType::C1
        ||| self.spec_class() == FuelClass::Deciduous
        ||| self.spec_class() == FuelClass::Slash
        ||| self.spec_class() == FuelClass::Grass
    }

    /// Fuel types whose head fire accelerates at the fixed open-fuel rate in
    /// the distance-over-time formula, independent of crown involvement:
    /// C1, D1, the slash types and the grass types.
    pub fn has_fixed_acceleration(self) -> (r: bool)
        ensures
            r == self.spec_has_fixed_acceleration(),
    {
        matches!(
            self,
            FbpFuelType::C1
                | FbpFuelType::D1
                | FbpFuelType::S1
                | FbpFuelType::S2
                | FbpFuelType::S3
                | FbpFuelType::O1a
                | FbpFuelType::O1b
        )
    }
}

} // verus!
