use chrono::{Datelike, NaiveDate};
use dollarbill::alpaca::occ::occ_symbol;
use dollarbill::alpaca::orders::{expiry_from_dte, expiry_from_dte_on, signal_to_options_order, signal_to_options_order_on};
use dollarbill::alpaca::types::{OrderSide, OrderType, TimeInForce};
use dollarbill::strategies::SignalAction;

#[test]
fn test_occ_symbol_call() {
    let sym = occ_symbol("AAPL", 25, 1, 17, true, 150_000);
    assert_eq!(sym, "AAPL  250117C00150000");
}

#[test]
fn test_occ_symbol_put() {
    let sym = occ_symbol("TSLA", 25, 6, 20, false, 200_000);
    assert_eq!(sym, "TSLA  250620P00200000");
}

#[test]
fn test_occ_symbol_long_ticker() {
    // 6-char ticker should not be padded further
    let sym = occ_symbol("GOOGL1", 25, 3, 21, true, 175_500);
    assert_eq!(sym, "GOOGL1250321C00175500");
}

#[test]
fn test_occ_symbol_fractional_strike() {
    // $2.50 strike → "00002500"
    let sym = occ_symbol("SPY", 25, 12, 19, false, 2_500);
    assert_eq!(sym, "SPY   251219P00002500");
}

#[test]
fn test_expiry_from_dte_range() {
    let (yy, mm, dd) = expiry_from_dte(30).unwrap();
    assert!(yy <= 99, "two-digit year out of range: {}", yy);
    assert!((1..=12).contains(&mm), "month out of range: {}", mm);
    assert!((1..=31).contains(&dd), "day out of range: {}", dd);
}

#[test]
fn test_expiry_from_dte_is_friday() {
    for dte in [0usize, 1, 7, 14, 30, 45, 60] {
        let (yy, mm, dd) = expiry_from_dte(dte).unwrap();
        let full_year = 2000 + yy as i32;
        let date = NaiveDate::from_ymd_opt(full_year, mm, dd).expect("invalid date returned by expiry_from_dte");
        assert_eq!(date.weekday(), chrono::Weekday::Fri, "dte={} → {}/{}/{} is not a Friday", dte, yy, mm, dd);
    }
}

#[test]
fn expiry_from_fixed_dates() {
    // Wednesday 2025-01-01 + 30 days = Friday 2025-01-31.
    assert_eq!(expiry_from_dte_on((2025, 1, 1), 30), Some((25, 1, 31)));
    // Saturday 2025-02-01 rolls forward to Friday 2025-02-07.
    assert_eq!(expiry_from_dte_on((2025, 1, 1), 31), Some((25, 2, 7)));
    // A Friday stays put.
    assert_eq!(expiry_from_dte_on((2025, 1, 3), 0), Some((25, 1, 3)));
    // Leap day arithmetic: 2024-02-28 + 1 = Thursday 2024-02-29 → Friday 2024-03-01.
    assert_eq!(expiry_from_dte_on((2024, 2, 28), 1), Some((24, 3, 1)));
}

#[test]
fn test_signal_to_options_order_buy_call_single_leg() {
    let sig = SignalAction::BuyCall { strike: 150_000, days_to_expiry: 30, volatility: 300 };
    let req = signal_to_options_order(&sig, "AAPL", 1, Some(2_500)).expect("should succeed");
    assert!(req.legs.is_none());
    assert_eq!(req.side, Some(OrderSide::Buy));
    assert_eq!(req.position_intent.as_deref(), Some("buy_to_open"));
    assert!(req.symbol.as_ref().unwrap().contains('C'), "call OCC symbol must contain 'C'");
    assert_eq!(req.limit_price_thousandths, Some(2_500));
}

#[test]
fn test_signal_to_options_order_sell_put_single_leg() {
    let sig = SignalAction::SellPut { strike: 140_000, days_to_expiry: 45, volatility: 250 };
    let req = signal_to_options_order(&sig, "AAPL", 2, None).expect("should succeed");
    assert!(req.legs.is_none());
    assert_eq!(req.side, Some(OrderSide::Sell));
    assert_eq!(req.position_intent.as_deref(), Some("sell_to_open"));
    assert!(req.symbol.as_ref().unwrap().contains('P'), "put OCC symbol must contain 'P'");
    assert_eq!(req.qty.as_deref(), Some("2"));
}

#[test]
fn test_signal_to_options_order_credit_call_spread_two_legs() {
    let sig = SignalAction::CreditCallSpread { sell_strike: 155_000, buy_strike: 160_000, days_to_expiry: 30 };
    let req = signal_to_options_order(&sig, "AAPL", 1, Some(-1_500)).expect("should succeed");
    let legs = req.legs.as_ref().unwrap();
    assert_eq!(legs.len(), 2);
    assert_eq!(legs[0].side, OrderSide::Sell);
    assert_eq!(legs[1].side, OrderSide::Buy);
    assert_eq!(req.order_class.as_deref(), Some("mleg"));
    assert!(legs.iter().all(|l| l.ratio_qty == 1));
}

#[test]
fn credit_call_spread_legs_carry_contract_count() {
    let sig = SignalAction::CreditCallSpread { sell_strike: 155_000, buy_strike: 160_000, days_to_expiry: 30 };
    let req = signal_to_options_order(&sig, "AAPL", 2, Some(-1_500)).unwrap();
    let legs = req.legs.as_ref().unwrap();
    assert!(legs.iter().all(|l| l.ratio_qty == 2));
    assert_eq!(req.qty.as_deref(), Some("1"));
}

#[test]
fn test_signal_to_options_order_iron_condor_four_legs() {
    let sig = SignalAction::IronCondor {
        sell_call_strike: 160_000,
        buy_call_strike: 165_000,
        sell_put_strike: 140_000,
        buy_put_strike: 135_000,
        days_to_expiry: 45,
    };
    let req = signal_to_options_order(&sig, "SPY", 1, Some(-2_000)).expect("should succeed");
    let legs = req.legs.as_ref().unwrap();
    assert_eq!(legs.len(), 4, "iron condor needs exactly 4 legs");
    assert_eq!(req.order_class.as_deref(), Some("mleg"));
    assert_eq!(legs[0].side, OrderSide::Sell);
    assert_eq!(legs[1].side, OrderSide::Buy);
    assert_eq!(legs[2].side, OrderSide::Sell);
    assert_eq!(legs[3].side, OrderSide::Buy);
}

#[test]
fn test_signal_to_options_order_no_action_returns_err() {
    let result = signal_to_options_order(&SignalAction::NoAction, "AAPL", 1, None);
    assert!(result.is_err(), "NoAction must return Err");
}

#[test]
fn test_signal_to_options_order_covered_call_single_leg() {
    let sig = SignalAction::CoveredCall { sell_strike: 155_000, days_to_expiry: 14 };
    let req = signal_to_options_order(&sig, "AAPL", 1, Some(1_000)).expect("should succeed");
    assert!(req.legs.is_none());
    assert_eq!(req.side, Some(OrderSide::Sell));
    assert_eq!(req.position_intent.as_deref(), Some("sell_to_open"));
}

#[test]
fn test_signal_to_options_order_sell_straddle_two_legs() {
    let sig = SignalAction::SellStraddle { strike: 200_000, days_to_expiry: 30 };
    let req = signal_to_options_order(&sig, "TSLA", 1, None).expect("SellStraddle should produce a valid order");
    let legs = req.legs.as_ref().unwrap();
    assert_eq!(legs.len(), 2, "sell straddle needs exactly 2 legs");
    assert_eq!(req.order_class.as_deref(), Some("mleg"));
    assert!(legs.iter().all(|l| l.side == OrderSide::Sell));
    assert!(legs.iter().all(|l| l.position_intent == "sell_to_open"));
    assert!(legs.iter().any(|l| l.symbol.contains('C')), "must have a call leg");
    assert!(legs.iter().any(|l| l.symbol.contains('P')), "must have a put leg");
    assert!(legs.iter().all(|l| l.symbol.contains("00200000")));
}

#[test]
fn test_signal_to_options_order_buy_straddle_two_legs() {
    let sig = SignalAction::BuyStraddle { strike: 150_000, days_to_expiry: 21 };
    let req = signal_to_options_order(&sig, "AAPL", 1, None).expect("BuyStraddle should produce a valid order");
    let legs = req.legs.as_ref().unwrap();
    assert_eq!(legs.len(), 2, "buy straddle needs exactly 2 legs");
    assert_eq!(req.order_class.as_deref(), Some("mleg"));
    assert!(legs.iter().all(|l| l.side == OrderSide::Buy));
    assert!(legs.iter().all(|l| l.position_intent == "buy_to_open"));
    assert!(legs.iter().any(|l| l.symbol.contains('C')));
    assert!(legs.iter().any(|l| l.symbol.contains('P')));
    assert!(legs.iter().all(|l| l.symbol.contains("00150000")));
}

#[test]
fn test_signal_to_options_order_iron_butterfly_four_legs() {
    let sig = SignalAction::IronButterfly { center_strike: 400_000, wing_width: 10_000, days_to_expiry: 14 };
    let req = signal_to_options_order(&sig, "SPY", 1, Some(-2_000)).expect("IronButterfly should produce a valid order");
    let legs = req.legs.as_ref().unwrap();
    assert_eq!(legs.len(), 4, "iron butterfly needs exactly 4 legs");
    assert_eq!(req.order_class.as_deref(), Some("mleg"));
    assert_eq!(legs[0].side, OrderSide::Sell);
    assert_eq!(legs[1].side, OrderSide::Buy);
    assert_eq!(legs[2].side, OrderSide::Sell);
    assert_eq!(legs[3].side, OrderSide::Buy);
    assert!(legs[0].symbol.contains("00400000"), "sell-call must be ATM");
    assert!(legs[2].symbol.contains("00400000"), "sell-put must be ATM");
    assert!(legs[1].symbol.contains("00410000"), "buy-call wing should be center+width");
    assert!(legs[3].symbol.contains("00390000"), "buy-put wing should be center-width");
    assert!(legs[0].symbol.contains('C'));
    assert!(legs[1].symbol.contains('C'));
    assert!(legs[2].symbol.contains('P'));
    assert!(legs[3].symbol.contains('P'));
}

#[test]
fn test_signal_to_options_order_cash_secured_put_single_leg() {
    let sig = SignalAction::CashSecuredPut { strike: 161_500, days_to_expiry: 30 };
    let req = signal_to_options_order(&sig, "COIN", 1, Some(3_000)).expect("CashSecuredPut should produce a valid order");
    assert!(req.legs.is_none(), "cash-secured put is a single leg");
    assert_eq!(req.side, Some(OrderSide::Sell));
    assert_eq!(req.position_intent.as_deref(), Some("sell_to_open"));
    let sym = req.symbol.as_ref().unwrap();
    assert!(sym.contains('P'), "must be a put");
    assert!(sym.contains("00161500"), "OCC strike encoding mismatch");
    assert_eq!(req.limit_price_thousandths, Some(3_000));
}

#[test]
fn order_on_fixed_date_has_exact_fields() {
    let sig = SignalAction::CreditPutSpread { sell_strike: 140_000, buy_strike: 135_000, days_to_expiry: 30 };
    let req = signal_to_options_order_on(&sig, "AAPL", 3, None, (2025, 1, 1)).unwrap();
    assert_eq!(req.order_type, OrderType::Market);
    assert_eq!(req.time_in_force, TimeInForce::Day);
    assert_eq!(req.qty.as_deref(), Some("1"));
    assert!(req.symbol.is_none() && req.side.is_none() && req.position_intent.is_none());
    let legs = req.legs.unwrap();
    assert_eq!(legs[0].symbol, "AAPL  250131P00140000");
    assert_eq!(legs[0].side, OrderSide::Sell);
    assert_eq!(legs[0].position_intent, "sell_to_open");
    assert_eq!(legs[1].symbol, "AAPL  250131P00135000");
    assert_eq!(legs[1].side, OrderSide::Buy);
    assert_eq!(legs[1].position_intent, "buy_to_open");
    assert!(legs.iter().all(|l| l.ratio_qty == 3));
}

#[test]
fn close_position_signal_is_rejected_with_message() {
    let r = signal_to_options_order_on(&SignalAction::ClosePosition { position_id: 7 }, "AAPL", 1, None, (2025, 1, 1));
    assert!(r.is_err());
    let single = signal_to_options_order_on(
        &SignalAction::BuyPut { strike: 99_000, days_to_expiry: 2, volatility: 0 },
        "QQQ",
        1,
        Some(500),
        (2025, 1, 1),
    )
    .unwrap();
    assert_eq!(single.order_type, OrderType::Limit);
    assert_eq!(single.symbol.as_deref(), Some("QQQ   250103P00099000"));
    assert!(single.order_class.is_none());
}
