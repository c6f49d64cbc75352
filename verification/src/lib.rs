//! Verified core of the Canadian Forest Fire Behaviour Prediction (FBP)
//! system: the closed fuel-type catalogue with its per-type constant tables,
//! the grouping of fuel types that drives every formula dispatch, the
//! seasonal foliar-moisture profile with its calendar handling, and the
//! day-length tables of the fire-weather moisture codes.
//!
//! The continuous spread-rate formulas themselves work on `f64`, which the
//! verifier does not take; they live in the surrounding unverified crate and
//! consult this library for every constant and every discrete decision.
//! Constants are held in decimal fixed point (ten-thousandths), which carries
//! the published table values exactly.

pub mod calendar;
pub mod catalog;
pub mod day_length;
pub mod foliar_moisture;
pub mod fuel;
