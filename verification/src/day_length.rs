//! Day-length factors of the fire-weather moisture codes.
//!
//! The drought code and the duff moisture code adjust their drying rates by
//! month and by latitude band. The published factors are decimal values with
//! one decimal place, held here exactly in `SCALE` units; the month index is
//! clamped into the calendar range as the moisture codes do.

use vstd::prelude::*;

use crate::catalog::SCALE;

verus! {

/// Latitude bands of the drought code's day-length factor.
#[derive(PartialEq, Eq, Copy, Clone, Debug, Structural)]
pub enum DroughtLatitude {
    /// North of 20 degrees N (also used when no latitude adjustment applies)
    NorthOf20N,
    /// Between 20 degrees S and 20 degrees N: a fixed factor, month-free
    Equatorial,
    /// South of 20 degrees S
    SouthOf20S,
}

/// Latitude bands of the duff moisture code's effective day length.
#[derive(PartialEq, Eq, Copy, Clone, Debug, Structural)]
pub enum DuffLatitude {
    /// North of 30 degrees N (also used when no latitude adjustment applies)
    NorthOf30N,
    /// Between 10 and 30 degrees N
    North10To30,
    /// Between 10 degrees S and 10 degrees N: a fixed day length, month-free
    Equatorial,
    /// Between 30 and 10 degrees S
    South10To30,
    /// South of 30 degrees S
    SouthOf30S,
}

/// A month index clamped into the calendar range, as the moisture codes
/// clamp it: 1 = January .. 12 = December.
pub open spec fn spec_clamp_month(month: int) -> int {
    if month < 1 {
        1
    } else if month > 12 {
        12
    } else {
        month
    }
}

/// Day-length factor of the drought code, in `SCALE` units, for a latitude
/// band and a (clamped) month.
pub open spec fn spec_drought_day_length_factor(band: DroughtLatitude, month: int) -> int {
    let m = spec_clamp_month(month);
    match band {
        DroughtLatitude::Equatorial => 14000,
        DroughtLatitude::NorthOf20N => if m == 4 {
            9000
        } else if m == 5 {
            38000
        } else if m == 6 {
            58000
        } else if m == 7 {
            64000
        } else if m == 8 {
            50000
        } else if m == 9 {
            24000
        } else if m == 10 {
            4000
        } else {
            -16000
        },
        DroughtLatitude::SouthOf20S => if m == 1 {
            64000
        } else if m == 2 {
            50000
        } else if m == 3 {
            24000
        } else if m == 4 {
            4000
        } else if m == 10 {
            9000
        } else if m == 11 {
            38000
        } else if m == 12 {
            58000
        } else {
            -16000
        },
    }
}

/// Day-length factor of the drought code, in `SCALE` units.
pub fn drought_day_length_factor(band: DroughtLatitude, month: u8) -> (r: i64)
    ensures
        r == spec_drought_day_length_factor(band, month as int),
{
    let m: u8 = if month < 1 {
        1
    } else if month > 12 {
        12
    } else {
        month
    };
    match band {
        DroughtLatitude::Equatorial => 14000,
        DroughtLatitude::NorthOf20N => {
            if m == 4 {
                9000
            } else if m == 5 {
                38000
            } else if m == 6 {
                58000
            } else if m == 7 {
                64000
            } else if m == 8 {
                50000
            } else if m == 9 {
                24000
            } else if m == 10 {
                4000
            } else {
                -16000
            }
        },
        DroughtLatitude::SouthOf20S => {
            if m == 1 {
                64000
            } else if m == 2 {
                50000
            } else if m == 3 {
                24000
            } else if m == 4 {
                4000
            } else if m == 10 {
                9000
            } else if m == 11 {
                38000
            } else if m == 12 {
                58000
            } else {
                -16000
            }
        },
    }
}

/// Effective day length of the duff moisture code, in `SCALE` units of
/// hours, for a latitude band and a (clamped) month.
pub open spec fn spec_duff_day_length(band: DuffLatitude, month: int) -> int {
    let m = spec_clamp_month(month);
    match band {
        DuffLatitude::Equatorial => 90000,
        DuffLatitude::NorthOf30N => if m == 1 {
            65000
        } else if m == 2 {
            75000
        } else if m == 3 {
            90000
        } else if m == 4 {
            128000
        } else if m == 5 {
            139000
        } else if m == 6 {
            139000
        } else if m == 7 {
            124000
        } else if m == 8 {
            109000
        } else if m == 9 {
            94000
        } else if m == 10 {
            80000
        } else if m == 11 {
            70000
        } else {
            60000
        },
        DuffLatitude::North10To30 => if m == 1 {
            79000
        } else if m == 2 {
            84000
        } else if m == 3 {
            89000
        } else if m == 4 {
            95000
        } else if m == 5 {
            99000
        } else if m == 6 {
            102000
        } else if m == 7 {
            101000
        } else if m == 8 {
            97000
        } else if m == 9 {
            91000
        } else if m == 10 {
            86000
        } else if m == 11 {
            81000
        } else {
            78000
        },
        DuffLatitude::South10To30 => if m == 1 {
            101000
        } else if m == 2 {
            96000
        } else if m == 3 {
            91000
        } else if m == 4 {
            85000
        } else if m == 5 {
            81000
        } else if m == 6 {
            78000
        } else if m == 7 {
            79000
        } else if m == 8 {
            83000
        } else if m == 9 {
            89000
        } else if m == 10 {
            94000
        } else if m == 11 {
            99000
        } else {
            102000
        },
        DuffLatitude::SouthOf30S => if m == 1 {
            115000
        } else if m == 2 {
            105000
        } else if m == 3 {
            92000
        } else if m == 4 {
            79000
        } else if m == 5 {
            68000
        } else if m == 6 {
            62000
        } else if m == 7 {
            65000
        } else if m == 8 {
            74000
        } else if m == 9 {
            87000
        } else if m == 10 {
            100000
        } else if m == 11 {
            112000
        } else {
            118000
        },
    }
}

/// Effective day length of the duff moisture code, in `SCALE` units of
/// hours. Always between 6 and 13.9 hours.
pub fn duff_day_length(band: DuffLatitude, month: u8) -> (r: u64)
    ensures
        r == spec_duff_day_length(band, month as int),
        6 * SCALE <= r <= 139000,
{
    let m: u8 = if month < 1 {
        1
    } else if month > 12 {
        12
    } else {
        month
    };
    match band {
        DuffLatitude::Equatorial => 90000,
        DuffLatitude::NorthOf30N => {
            if m == 1 {
                65000
            } else if m == 2 {
                75000
            } else if m == 3 {
                90000
            } else if m == 4 {
                128000
            } else if m == 5 {
                139000
            } else if m == 6 {
                139000
            } else if m == 7 {
                124000
            } else if m == 8 {
                109000
            } else if m == 9 {
                94000
            } else if m == 10 {
                80000
            } else if m == 11 {
                70000
            } else {
                60000
            }
        },
        DuffLatitude::North10To30 => {
            if m == 1 {
                79000
            } else if m == 2 {
                84000
            } else if m == 3 {
                89000
            } else if m == 4 {
                95000
            } else if m == 5 {
                99000
            } else if m == 6 {
                102000
            } else if m == 7 {
                101000
            } else if m == 8 {
                97000
            } else if m == 9 {
                91000
            } else if m == 10 {
                86000
            } else if m == 11 {
                81000
            } else {
                78000
            }
        },
        DuffLatitude::South10To30 => {
            if m == 1 {
                101000
            } else if m == 2 {
                96000
            } else if m == 3 {
                91000
            } else if m == 4 {
                85000
            } else if m == 5 {
                81000
            } else if m == 6 {
                78000
            } else if m == 7 {
                79000
            } else if m == 8 {
                83000
            } else if m == 9 {
                89000
            } else if m == 10 {
                94000
            } else if m == 11 {
                99000
            } else {
                102000
            }
        },
        DuffLatitude::SouthOf30S => {
            if m == 1 {
                115000
            } else if m == 2 {
                105000
            } else if m == 3 {
                92000
            } else if m == 4 {
                79000
            } else if m == 5 {
                68000
            } else if m == 6 {
                62000
            } else if m == 7 {
                65000
            } else if m == 8 {
                74000
            } else if m == 9 {
                87000
            } else if m == 10 {
                100000
            } else if m == 11 {
                112000
            } else {
                118000
            }
        },
    }
}

} // verus!
