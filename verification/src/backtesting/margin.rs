//! Reg T margin requirements for short option positions.
//!
//! Rules implemented (CBOE / Reg T):
//!
//! * Naked call: `max(20% × spot − OTM + premium, 10% × spot + premium)`,
//!   `OTM = max(0, strike − spot)`.
//! * Naked put: `max(20% × spot − OTM + premium, 10% × strike + premium)`,
//!   `OTM = max(0, spot − strike)`.
//! * Vertical credit spread: `|buy_strike − sell_strike| × 100`.
//! * Iron condor: `max(call width, put width) × 100`.
//! * Cash-secured put: `strike × 100`.
//!
//! Prices are per share in thousandths of a dollar (`100.0` → `100_000`);
//! requirements are per contract (100 shares) in thousandths of a dollar.

use vstd::prelude::*;

verus! {

/// Which Reg T formula applied.
#[derive(Debug, Clone, Copy, PartialEq, Eq, Structural)]
pub enum MarginRule {
    /// Naked short call — 20%/10% CBOE formula.
    NakedCall,
    /// Naked short put — 20%/10% CBOE formula.
    NakedPut,
    /// Vertical credit spread — max loss is the spread width.
    CreditSpread,
    /// Iron condor — max loss of the wider wing only.
    IronCondor,
    /// Cash-secured put — full assignment cost held in cash.
    CashSecuredPut,
}

/// Margin requirement for a single short option position or spread.
#[derive(Debug, Clone, Copy, PartialEq, Eq, Structural)]
pub struct MarginRequirement {
    /// Total margin required per contract, in thousandths of a dollar.
    pub per_contract: u128,
    /// The rule or formula that produced this figure.
    pub rule: MarginRule,
}

pub open spec fn max_int(a: int, b: int) -> int {
    if a >= b {
        a
    } else {
        b
    }
}

pub open spec fn abs_diff(a: int, b: int) -> int {
    if a >= b {
        a - b
    } else {
        b - a
    }
}

/// Naked short call requirement (thousandths per contract).
pub open spec fn naked_call_requirement(spot: int, strike: int, premium: int) -> int {
    let otm = max_int(strike - spot, 0);
    let twenty = 20 * spot - 100 * otm + 100 * premium;
    let ten = 10 * spot + 100 * premium;
    max_int(max_int(twenty, ten), 0)
}

/// Naked short put requirement (thousandths per contract).
pub open spec fn naked_put_requirement(spot: int, strike: int, premium: int) -> int {
    let otm = max_int(spot - strike, 0);
    let twenty = 20 * spot - 100 * otm + 100 * premium;
    let ten = 10 * strike + 100 * premium;
    max_int(max_int(twenty, ten), 0)
}

fn max_i128(a: i128, b: i128) -> (r: i128)
    ensures
        r == max_int(a as int, b as int),
{
    if a >= b {
        a
    } else {
        b
    }
}

fn abs_diff_u64(a: u64, b: u64) -> (r: u64)
    ensures
        r == abs_diff(a as int, b as int),
{
    if a >= b {
        a - b
    } else {
        b - a
    }
}

/// Reg T margin for a **naked short call** per contract.
pub fn naked_call_margin(spot: u64, strike: u64, premium: u64) -> (m: MarginRequirement)
    ensures
        m.per_contract == naked_call_requirement(spot as int, strike as int, premium as int),
        m.per_contract >= 10 * spot + 100 * premium,
        m.rule == MarginRule::NakedCall,
{
    let otm = max_i128(strike as i128 - spot as i128, 0);
    let premium_dollars = 100 * premium as i128;
    let twenty_pct_rule = 20 * spot as i128 - 100 * otm + premium_dollars;
    let ten_pct_rule = 10 * spot as i128 + premium_dollars;
    let per_contract = max_i128(max_i128(twenty_pct_rule, ten_pct_rule), 0);
    MarginRequirement { per_contract: per_contract as u128, rule: MarginRule::NakedCall }
}

/// Reg T margin for a **naked short put** per contract.
pub fn naked_put_margin(spot: u64, strike: u64, premium: u64) -> (m: MarginRequirement)
    ensures
        m.per_contract == naked_put_requirement(spot as int, strike as int, premium as int),
        m.per_contract >= 10 * strike + 100 * premium,
        m.rule == MarginRule::NakedPut,
{
    let otm = max_i128(spot as i128 - strike as i128, 0);
    let premium_dollars = 100 * premium as i128;
    let twenty_pct_rule = 20 * spot as i128 - 100 * otm + premium_dollars;
    let ten_pct_rule = 10 * strike as i128 + premium_dollars;
    let per_contract = max_i128(max_i128(twenty_pct_rule, ten_pct_rule), 0);
    MarginRequirement { per_contract: per_contract as u128, rule: MarginRule::NakedPut }
}

/// Reg T margin for a **vertical credit spread** (call or put) per contract:
/// the spread width × 100, whatever the order of the strikes.
pub fn credit_spread_margin(sell_strike: u64, buy_strike: u64) -> (m: MarginRequirement)
    ensures
        m.per_contract == 100 * abs_diff(buy_strike as int, sell_strike as int),
        m.rule == MarginRule::CreditSpread,
{
    let width = abs_diff_u64(buy_strike, sell_strike);
    MarginRequirement { per_contract: width as u128 * 100, rule: MarginRule::CreditSpread }
}

/// Reg T margin for an **iron condor** per condor: only the wider wing.
pub fn iron_condor_margin(
    sell_call_strike: u64,
    buy_call_strike: u64,
    sell_put_strike: u64,
    buy_put_strike: u64,
) -> (m: MarginRequirement)
    ensures
        m.per_contract == 100 * max_int(
            abs_diff(buy_call_strike as int, sell_call_strike as int),
            abs_diff(sell_put_strike as int, buy_put_strike as int),
        ),
        m.rule == MarginRule::IronCondor,
{
    let call_width = abs_diff_u64(buy_call_strike, sell_call_strike);
    let put_width = abs_diff_u64(sell_put_strike, buy_put_strike);
    let wider = if call_width >= put_width {
        call_width
    } else {
        put_width
    };
    MarginRequirement { per_contract: wider as u128 * 100, rule: MarginRule::IronCondor }
}

/// Margin for a **cash-secured put** per contract: `strike × 100` held in cash.
pub fn cash_secured_put_margin(strike: u64) -> (m: MarginRequirement)
    ensures
        m.per_contract == 100 * strike,
        m.rule == MarginRule::CashSecuredPut,
{
    MarginRequirement { per_contract: strike as u128 * 100, rule: MarginRule::CashSecuredPut }
}

/// Capital covers `contracts` lots at the per-contract requirement plus a
/// 10% maintenance buffer.
pub open spec fn sufficient(per_contract: int, contracts: int, available: int) -> bool {
    10 * available >= 11 * per_contract * (if contracts < 0 { -contracts } else { contracts })
}

/// Whether `available_capital` (thousandths of a dollar) covers the total
/// margin for `contracts` lots (short or long alike) plus a 10% safety
/// buffer. `i32::MIN` contracts are excluded: their magnitude does not fit
/// the `i32` that the lot count is taken in.
pub fn has_sufficient_margin(margin: &MarginRequirement, contracts: i32, available_capital: i128) -> (b: bool)
    requires
        contracts > i32::MIN,
    ensures
        b == sufficient(margin.per_contract as int, contracts as int, available_capital as int),
{
    let lots: u128 = if contracts < 0 {
        (-contracts) as u128
    } else {
        contracts as u128
    };
    if available_capital < 0 {
        assert(11 * margin.per_contract * lots >= 0) by (nonlinear_arith);
        return false;
    }
    let available = available_capital as u128;
    let ghost product: int = margin.per_contract * lots;
    assert(11 * margin.per_contract * lots == 11 * product) by (nonlinear_arith)
        requires
            product == margin.per_contract * lots,
    ;
    let total = match margin.per_contract.checked_mul(lots) {
        Some(t) => t,
        None => {
            // The requirement exceeds any capital an `i128` can hold.
            assert(10 * available_capital < 11 * product);
            return false;
        },
    };
    // 10·available ≥ 11·total ⟺ available ≥ total + ⌈total / 10⌉
    let tenth_up: u128 = total / 10 + if total % 10 != 0 {
        1
    } else {
        0
    };
    match total.checked_add(tenth_up) {
        Some(need) => available >= need,
        None => false,
    }
}

/// Maximum loss of a credit call or put spread per contract:
/// `max(width − net premium, 0) × 100`.
pub fn max_loss_credit_spread(sell_strike: u64, buy_strike: u64, net_premium_per_share: u64) -> (loss: u128)
    ensures
        loss == 100 * max_int(abs_diff(buy_strike as int, sell_strike as int) - net_premium_per_share, 0),
{
    let width = abs_diff_u64(buy_strike, sell_strike);
    if width >= net_premium_per_share {
        (width - net_premium_per_share) as u128 * 100
    } else {
        0
    }
}

/// Maximum loss of an iron condor per condor: only one wing can expire at
/// max loss, `max(max(call width, put width) − net premium, 0) × 100`.
pub fn max_loss_iron_condor(
    sell_call_strike: u64,
    buy_call_strike: u64,
    sell_put_strike: u64,
    buy_put_strike: u64,
    net_premium_per_share: u64,
) -> (loss: u128)
    ensures
        loss == 100 * max_int(
            max_int(
                abs_diff(buy_call_strike as int, sell_call_strike as int),
                abs_diff(sell_put_strike as int, buy_put_strike as int),
            ) - net_premium_per_share,
            0,
        ),
{
    let call_width = abs_diff_u64(buy_call_strike, sell_call_strike);
    let put_width = abs_diff_u64(sell_put_strike, buy_put_strike);
    let max_width = if call_width >= put_width {
        call_width
    } else {
        put_width
    };
    if max_width >= net_premium_per_share {
        (max_width - net_premium_per_share) as u128 * 100
    } else {
        0
    }
}

/// Maximum profit on a short option position: the premium received,
/// `premium × 100 × contracts`.
pub fn max_profit_short(premium_per_share: u64, contracts: u32) -> (profit: u128)
    ensures
        profit == premium_per_share * 100 * contracts,
{
    assert(premium_per_share as u128 * 100 * contracts as u128 <= u64::MAX as u128 * 100 * u32::MAX as u128)
        by (nonlinear_arith);
    premium_per_share as u128 * 100 * contracts as u128
}

/// Maximum loss of a naked short put per contract (the underlying goes to
/// zero): `max(strike − premium, 0) × 100`.
pub fn max_loss_naked_put(strike: u64, premium_per_share: u64) -> (loss: u128)
    ensures
        loss == 100 * max_int(strike - premium_per_share, 0),
{
    if strike >= premium_per_share {
        (strike - premium_per_share) as u128 * 100
    } else {
        0
    }
}

// ─── Laws ────────────────────────────────────────────────────────────────────

/// Law: the credit-spread margin does not depend on the order of the strikes.
pub proof fn lemma_credit_spread_order_independent(a: u64, b: u64)
    ensures
        abs_diff(a as int, b as int) == abs_diff(b as int, a as int),
{
}

/// Law: a credit spread never loses more than its margin requirement, and
/// its maximum loss is never negative.
pub proof fn lemma_credit_spread_loss_within_margin(sell_strike: u64, buy_strike: u64, premium: u64)
    ensures
        0 <= 100 * max_int(abs_diff(buy_strike as int, sell_strike as int) - premium, 0)
            <= 100 * abs_diff(buy_strike as int, sell_strike as int),
{
}

/// Law: an iron condor's margin is that of its wider wing as a credit
/// spread, and its maximum loss never exceeds that margin.
pub proof fn lemma_iron_condor_wider_wing(
    sell_call_strike: u64,
    buy_call_strike: u64,
    sell_put_strike: u64,
    buy_put_strike: u64,
    premium: u64,
)
    ensures
        ({
            let cw = abs_diff(buy_call_strike as int, sell_call_strike as int);
            let pw = abs_diff(sell_put_strike as int, buy_put_strike as int);
            &&& max_int(cw, pw) >= cw
            &&& max_int(cw, pw) >= pw
            &&& 0 <= 100 * max_int(max_int(cw, pw) - premium, 0) <= 100 * max_int(cw, pw)
        }),
{
}

/// Law: naked margins are never negative and never below the 10% rule.
pub proof fn lemma_naked_margins_floor(spot: u64, strike: u64, premium: u64)
    ensures
        naked_call_requirement(spot as int, strike as int, premium as int) >= 10 * spot + 100 * premium >= 0,
        naked_put_requirement(spot as int, strike as int, premium as int) >= 10 * strike + 100 * premium >= 0,
{
}

/// Law: more capital never turns a sufficient-margin answer into an
/// insufficient one.
pub proof fn lemma_sufficient_margin_monotone(per_contract: int, contracts: int, a: int, b: int)
    requires
        a <= b,
        sufficient(per_contract, contracts, a),
    ensures
        sufficient(per_contract, contracts, b),
{
}

} // verus!
