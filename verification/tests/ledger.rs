use dollarbill::backtesting::ledger::{Ledger, LedgerError, Money, MAX_MANTISSA};
use rust_decimal::prelude::FromPrimitive;
use rust_decimal::Decimal;

fn money(x: f64) -> Money {
    let d = Decimal::from_f64(x).unwrap_or(Decimal::ZERO);
    Money::new(d.mantissa(), d.scale()).unwrap()
}

fn dec(m: Money) -> Decimal {
    Decimal::from_i128_with_scale(m.mantissa(), m.scale())
}

fn balance_f64(ledger: &Ledger) -> f64 {
    dec(ledger.balance()).to_string().parse::<f64>().unwrap_or(0.0)
}

#[test]
fn test_commission_accumulation_is_exact() {
    let mut ledger = Ledger::new(money(100_000.0));
    for _ in 0..100 {
        ledger.credit(money(0.0), money(1.00), money(0.0)).unwrap();
    }
    assert_eq!(
        dec(ledger.total_commissions()),
        Decimal::from(100),
        "commission accumulation should be exact"
    );
}

#[test]
fn test_pnl_accumulation_is_exact() {
    let mut ledger = Ledger::new(money(100_000.0));
    for _ in 0..1000 {
        ledger.credit(money(0.0), money(0.0), money(0.01)).unwrap();
    }
    assert_eq!(
        dec(ledger.total_realized_pnl()),
        Decimal::new(10, 0),
        "P&L accumulation should be exact"
    );
}

#[test]
fn test_net_return() {
    let mut ledger = Ledger::new(money(100_000.0));
    ledger.credit(money(10_000.0), money(0.0), money(10_000.0)).unwrap();
    let ret = ledger.net_return().unwrap().unwrap();
    let expected = Decimal::new(1, 1);
    assert_eq!(dec(ret), expected);
}

#[test]
fn test_balance_tracks_debits_and_credits() {
    let mut ledger = Ledger::new(money(50_000.0));
    ledger.debit(money(5_000.0), money(5.0)).unwrap();
    ledger.credit(money(6_000.0), money(5.0), money(995.0)).unwrap();
    assert_eq!(balance_f64(&ledger), 51_000.0);
}

#[test]
fn ledger_counts_and_commissions() {
    let mut ledger = Ledger::new(money(1_000.0));
    assert_eq!(ledger.debit_count(), 0);
    assert_eq!(ledger.credit_count(), 0);
    ledger.debit(money(100.25), money(0.65)).unwrap();
    ledger.debit(money(50.0), money(0.65)).unwrap();
    ledger.credit(money(175.0), money(0.65), money(24.10)).unwrap();
    assert_eq!(ledger.debit_count(), 2);
    assert_eq!(ledger.credit_count(), 1);
    assert_eq!(dec(ledger.balance()), Decimal::new(102475, 2));
    assert_eq!(dec(ledger.total_commissions()), Decimal::new(195, 2));
    assert_eq!(dec(ledger.total_realized_pnl()), Decimal::new(2410, 2));
}

#[test]
fn net_return_of_zero_start_is_none() {
    let mut ledger = Ledger::new(Money::zero());
    assert_eq!(ledger.net_return(), Ok(None));
    ledger.credit(money(10.0), money(0.0), money(10.0)).unwrap();
    assert_eq!(ledger.net_return(), Ok(None));
}

#[test]
fn net_return_of_a_loss_is_negative() {
    let mut ledger = Ledger::new(money(200.0));
    ledger.debit(money(50.0), money(0.0)).unwrap();
    let ret = ledger.net_return().unwrap().unwrap();
    assert_eq!(dec(ret), Decimal::new(-25, 2));
}

#[test]
fn overflowing_update_is_refused_and_changes_nothing() {
    let big = Money::new(MAX_MANTISSA, 0).unwrap();
    let mut ledger = Ledger::new(big);
    assert_eq!(ledger.credit(big, money(1.0), money(2.0)), Err(LedgerError::Overflow));
    assert_eq!(dec(ledger.balance()), dec(big));
    assert_eq!(dec(ledger.total_commissions()), Decimal::ZERO);
    assert_eq!(dec(ledger.total_realized_pnl()), Decimal::ZERO);
    assert_eq!(ledger.credit_count(), 0);

    let low = Money::new(-MAX_MANTISSA, 0).unwrap();
    let mut ledger = Ledger::new(low);
    assert_eq!(ledger.debit(big, money(1.0)), Err(LedgerError::Overflow));
    assert_eq!(dec(ledger.balance()), dec(low));
    assert_eq!(ledger.debit_count(), 0);
}

#[test]
fn money_rejects_parts_outside_a_decimal() {
    assert!(Money::new(MAX_MANTISSA, 28).is_some());
    assert!(Money::new(MAX_MANTISSA + 1, 0).is_none());
    assert!(Money::new(-MAX_MANTISSA - 1, 0).is_none());
    assert!(Money::new(1, 29).is_none());
    let m = Money::new(-1234, 2).unwrap();
    assert_eq!(m.mantissa(), -1234);
    assert_eq!(m.scale(), 2);
    assert!(!m.is_zero());
    assert!(Money::zero().is_zero());
}
