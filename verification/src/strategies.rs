//! Strategy signals as the order path consumes them.

use vstd::prelude::*;

verus! {

/// The action a strategy recommends. Strike prices are in thousandths of a
/// dollar (`150.0` → `150_000`), volatilities in thousandths (`0.25` → `250`).
#[derive(Debug, Clone, Copy, PartialEq, Eq, Structural)]
pub enum SignalAction {
    BuyCall { strike: u64, days_to_expiry: usize, volatility: u64 },
    BuyPut { strike: u64, days_to_expiry: usize, volatility: u64 },
    SellCall { strike: u64, days_to_expiry: usize, volatility: u64 },
    SellPut { strike: u64, days_to_expiry: usize, volatility: u64 },
    CreditCallSpread { sell_strike: u64, buy_strike: u64, days_to_expiry: usize },
    CreditPutSpread { sell_strike: u64, buy_strike: u64, days_to_expiry: usize },
    IronCondor {
        sell_call_strike: u64,
        buy_call_strike: u64,
        sell_put_strike: u64,
        buy_put_strike: u64,
        days_to_expiry: usize,
    },
    CoveredCall { sell_strike: u64, days_to_expiry: usize },
    SellStraddle { strike: u64, days_to_expiry: usize },
    BuyStraddle { strike: u64, days_to_expiry: usize },
    IronButterfly { center_strike: u64, wing_width: u64, days_to_expiry: usize },
    CashSecuredPut { strike: u64, days_to_expiry: usize },
    ClosePosition { position_id: usize },
    NoAction,
}

} // verus!
