//! Symbol universes.

pub mod symbols;
pub mod expirations;
