//! Pricing-model vocabulary.

pub mod american;
pub mod heston_analytical;
