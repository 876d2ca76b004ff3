//! Market-regime and stock-personality vocabulary and rule tables.

pub mod advanced_classifier;
pub mod regime_detector;
pub mod stock_classifier;
