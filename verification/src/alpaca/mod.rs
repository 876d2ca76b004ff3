//! Alpaca brokerage model: OCC option symbols, order types and the order
//! construction rules.

pub mod occ;
pub mod types;
pub mod orders;
pub mod retry;
pub mod endpoints;
pub mod position_exit;
pub mod reconcile;
pub mod tick_gate;
pub mod spend_guard;
