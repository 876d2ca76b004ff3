//! Verified core of the DollarBill options-trading toolkit: OCC option
//! symbols, order construction, symbol universes and configuration rules.

pub mod text;
pub mod calendar;
pub mod alpaca;
pub mod strategies;
pub mod order_path;
pub mod market_data;
pub mod models;
pub mod config;
pub mod analysis;
pub mod backtesting;
pub mod alerting;
pub mod calibration;
pub mod rng;
pub mod data_files;
