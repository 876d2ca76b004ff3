//! Type definitions for the Alpaca API, as plain values.

use vstd::prelude::*;

verus! {

/// Brokerage account summary. Monetary amounts arrive as decimal strings.
#[derive(Debug, Clone)]
pub struct Account {
    pub id: String,
    pub account_number: String,
    pub status: String,
    pub currency: String,
    pub buying_power: String,
    pub cash: String,
    pub portfolio_value: String,
    pub equity: String,
    pub last_equity: String,
    pub long_market_value: String,
    pub short_market_value: String,
    pub initial_margin: String,
    pub maintenance_margin: String,
    pub daytrade_count: i32,
    pub pattern_day_trader: bool,
    /// Options trading level approved by Alpaca.
    /// 0 = not approved, 1 = Level 1 (covered calls / cash-secured puts),
    /// 2 = Level 2 (spreads / defined-risk strategies).
    /// None when the field is absent from the API response.
    pub options_approved_level: Option<u8>,
}

/// An order as reported by the brokerage.
#[derive(Debug)]
pub struct Order {
    pub id: String,
    pub client_order_id: String,
    pub created_at: String,
    pub updated_at: Option<String>,
    pub submitted_at: Option<String>,
    pub filled_at: Option<String>,
    pub expired_at: Option<String>,
    pub canceled_at: Option<String>,
    pub failed_at: Option<String>,
    pub replaced_at: Option<String>,
    pub asset_id: String,
    pub symbol: String,
    pub asset_class: String,
    pub qty: String,
    pub filled_qty: String,
    pub order_type: String,
    pub side: String,
    pub time_in_force: String,
    pub limit_price: Option<String>,
    pub stop_price: Option<String>,
    pub filled_avg_price: Option<String>,
    pub status: String,
    pub extended_hours: bool,
    pub legs: Option<Vec<Order>>,
}

#[derive(Debug, Clone, Copy, PartialEq, Eq, Structural)]
pub enum OrderSide {
    Buy,
    Sell,
}

#[derive(Debug, Clone, Copy, PartialEq, Eq, Structural)]
pub enum OrderType {
    Market,
    Limit,
    Stop,
    StopLimit,
}

#[derive(Debug, Clone, Copy, PartialEq, Eq, Structural)]
pub enum TimeInForce {
    /// Day order.
    Day,
    /// Good til canceled.
    Gtc,
    /// Market on open.
    Opg,
    /// Market on close.
    Cls,
    /// Immediate or cancel.
    Ioc,
    /// Fill or kill.
    Fok,
}

/// Alpaca market clock — is the market currently open?
#[derive(Debug, Clone)]
pub struct Clock {
    pub timestamp: String,
    pub is_open: bool,
    pub next_open: String,
    pub next_close: String,
}

/// A single leg of a multi-leg options order.
#[derive(Debug, Clone)]
pub struct OptionsLeg {
    /// OCC option symbol, e.g. "AAPL  250117C00150000".
    pub symbol: String,
    /// Number of contracts for this leg (always positive).
    pub ratio_qty: u32,
    pub side: OrderSide,
    /// "buy_to_open" | "buy_to_close" | "sell_to_open" | "sell_to_close"
    pub position_intent: String,
}

/// Request body for a single-leg or multi-leg options order.
///
/// Single-leg: `symbol`, `qty`, `side`, `position_intent` are set;
/// `order_class` / `legs` are absent.
/// Multi-leg: `order_class = "mleg"`, `qty` (units of strategy) and `legs`
/// are set; `symbol` / `side` / `position_intent` are absent.
#[derive(Debug, Clone)]
pub struct OptionsOrderRequest {
    pub order_type: OrderType,
    pub time_in_force: TimeInForce,
    pub symbol: Option<String>,
    pub qty: Option<String>,
    pub side: Option<OrderSide>,
    pub position_intent: Option<String>,
    pub order_class: Option<String>,
    pub legs: Option<Vec<OptionsLeg>>,
    /// Net debit (positive) or credit (negative) limit price in thousandths
    /// of a dollar; `None` for market orders.
    pub limit_price_thousandths: Option<i64>,
    pub client_order_id: Option<String>,
}

} // verus!
