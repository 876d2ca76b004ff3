//! Backtesting rules: liquidity tiers, Reg T margin, and position/trade
//! vocabulary.

pub mod ledger;
pub mod liquidity;
pub mod margin;
pub mod holding_period;
pub mod position;
pub mod regime_pipeline;
pub mod trade;
