//! Market option data used for model calibration.

pub mod market_option;
