//! A verified model of a reactor core advancing in discrete timesteps.
//!
//! All physical quantities are fixed-point integers, so every update is
//! exact: percentages (control rods, coolant flow) are stored in hundredths
//! of a percent, and megawatts, degrees Celsius and bar in millionths of a
//! unit.

pub mod reactor;
