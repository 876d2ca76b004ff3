// Prices are per share in thousandths of a dollar; requirements per
// contract in thousandths of a dollar ($2300 → 2_300_000).
use dollarbill::backtesting::margin::{
    cash_secured_put_margin, credit_spread_margin, has_sufficient_margin, iron_condor_margin, max_loss_credit_spread,
    max_loss_iron_condor, max_loss_naked_put, max_profit_short, naked_call_margin, naked_put_margin, MarginRequirement,
    MarginRule,
};

#[test]
fn naked_call_atm_uses_twenty_pct_formula() {
    let m = naked_call_margin(100_000, 100_000, 3_000);
    assert_eq!(m.per_contract, 2_300_000, "expected 2300, got {}", m.per_contract);
    assert_eq!(m.rule, MarginRule::NakedCall);
}

#[test]
fn naked_call_deep_otm_may_hit_ten_pct_floor() {
    let m = naked_call_margin(100_000, 150_000, 100);
    assert_eq!(m.per_contract, 1_010_000, "expected 1010, got {}", m.per_contract);
}

#[test]
fn naked_call_margin_never_negative() {
    let m = naked_call_margin(50_000, 999_000, 10);
    assert!(m.per_contract >= 0);
    assert_eq!(m.per_contract, 501_000);
}

#[test]
fn naked_put_atm_uses_twenty_pct_formula() {
    let m = naked_put_margin(100_000, 100_000, 3_000);
    assert_eq!(m.per_contract, 2_300_000, "expected 2300, got {}", m.per_contract);
    assert_eq!(m.rule, MarginRule::NakedPut);
}

#[test]
fn naked_put_itm_strike_higher_margin() {
    let itm = naked_put_margin(100_000, 110_000, 12_000);
    let atm = naked_put_margin(100_000, 100_000, 3_000);
    assert!(itm.per_contract > atm.per_contract, "ITM put {} should require more margin than ATM put {}", itm.per_contract, atm.per_contract);
}

#[test]
fn naked_put_otm_reduces_twenty_pct() {
    let m = naked_put_margin(100_000, 80_000, 1_000);
    assert_eq!(m.per_contract, 900_000, "expected 900, got {}", m.per_contract);
}

#[test]
fn credit_spread_margin_is_width_times_100() {
    let m = credit_spread_margin(100_000, 105_000);
    assert_eq!(m.per_contract, 500_000);
    assert_eq!(m.rule, MarginRule::CreditSpread);
}

#[test]
fn credit_spread_margin_order_independent() {
    let m1 = credit_spread_margin(105_000, 100_000);
    let m2 = credit_spread_margin(100_000, 105_000);
    assert_eq!(m1.per_contract, m2.per_contract);
}

#[test]
fn iron_condor_margin_uses_wider_wing() {
    let m = iron_condor_margin(110_000, 115_000, 90_000, 87_000);
    assert_eq!(m.per_contract, 500_000);
    assert_eq!(m.rule, MarginRule::IronCondor);
}

#[test]
fn iron_condor_equal_wings() {
    let m = iron_condor_margin(110_000, 115_000, 90_000, 85_000);
    assert_eq!(m.per_contract, 500_000);
}

#[test]
fn cash_secured_put_margin_is_strike_times_100() {
    let m = cash_secured_put_margin(95_000);
    assert_eq!(m.per_contract, 9_500_000);
    assert_eq!(m.rule, MarginRule::CashSecuredPut);
}

#[test]
fn sufficient_margin_passes_when_capital_covers_requirement() {
    let m = naked_call_margin(100_000, 100_000, 3_000);
    assert!(has_sufficient_margin(&m, 5, 15_000_000));
}

#[test]
fn sufficient_margin_fails_when_capital_insufficient() {
    let m = naked_call_margin(100_000, 100_000, 3_000);
    assert!(!has_sufficient_margin(&m, 5, 5_000_000));
}

#[test]
fn sufficient_margin_respects_safety_buffer() {
    let m = naked_call_margin(100_000, 100_000, 3_000);
    assert!(!has_sufficient_margin(&m, 1, 2_301_000));
    assert!(has_sufficient_margin(&m, 1, 2_530_000));
}

#[test]
fn sufficient_margin_short_contracts_and_negative_capital() {
    let m = credit_spread_margin(100_000, 105_000);
    // -2 contracts count as 2: 2 × 500 × 1.1 = 1100 dollars.
    assert!(has_sufficient_margin(&m, -2, 1_100_000));
    assert!(!has_sufficient_margin(&m, -2, 1_099_999));
    assert!(!has_sufficient_margin(&m, 1, -1));
    assert!(has_sufficient_margin(&m, 0, 0));
    assert!(has_sufficient_margin(&m, 1, i128::MAX));
}

#[test]
fn max_loss_credit_spread_five_point_two_credit() {
    let loss = max_loss_credit_spread(100_000, 105_000, 2_000);
    assert_eq!(loss, 300_000, "expected 300, got {loss}");
}

#[test]
fn max_loss_credit_spread_premium_equals_width_is_zero() {
    let loss = max_loss_credit_spread(100_000, 105_000, 5_000);
    assert_eq!(loss, 0, "expected 0, got {loss}");
}

#[test]
fn max_loss_credit_spread_never_negative() {
    let loss = max_loss_credit_spread(100_000, 105_000, 10_000);
    assert!(loss >= 0);
    assert_eq!(loss, 0);
}

#[test]
fn max_loss_iron_condor_uses_wider_wing() {
    let loss = max_loss_iron_condor(110_000, 115_000, 90_000, 87_000, 3_000);
    assert_eq!(loss, 200_000, "expected 200, got {loss}");
}

#[test]
fn max_profit_short_is_premium_times_contracts() {
    let profit = max_profit_short(5_000, 3);
    assert_eq!(profit, 1_500_000, "expected 1500, got {profit}");
}

#[test]
fn max_loss_naked_put_underlying_goes_to_zero() {
    let loss = max_loss_naked_put(100_000, 5_000);
    assert_eq!(loss, 9_500_000, "expected 9500, got {loss}");
    assert_eq!(max_loss_naked_put(1_000, 5_000), 0);
}

#[test]
fn credit_spread_loss_within_margin_example() {
    let m = credit_spread_margin(100_000, 105_000);
    let loss = max_loss_credit_spread(100_000, 105_000, 1_250);
    assert!(loss <= m.per_contract);
    assert_eq!(loss, 375_000);
}

#[test]
fn sufficient_margin_with_huge_requirements() {
    let huge = MarginRequirement { per_contract: u128::MAX, rule: MarginRule::NakedCall };
    assert!(!has_sufficient_margin(&huge, 1, i128::MAX));
    assert!(!has_sufficient_margin(&huge, 2, i128::MAX));
    let big = MarginRequirement { per_contract: 10u128.pow(37), rule: MarginRule::NakedCall };
    assert!(has_sufficient_margin(&big, 10, i128::MAX));
    assert!(!has_sufficient_margin(&big, 16, i128::MAX));
    let m = naked_call_margin(u64::MAX, 0, u64::MAX);
    assert_eq!(m.per_contract, 120 * u64::MAX as u128);
    assert!(has_sufficient_margin(&m, 1, i128::MAX));
}
