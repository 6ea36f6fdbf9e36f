//! Pricing curves, fees and the configuration record that holds them.

pub mod base;
pub mod calculator;
pub mod fees;
pub mod math;
pub mod stable;
