use dollarbill::alpaca::occ::occ_symbol;
use dollarbill::order_path::{
    build_order, build_order_on, client_order_id_at, generate_client_order_id, ClientOrderIds, size_position, validate_occ_symbol, validate_occ_symbol_on,
    validate_signal, validate_signal_action, OrderPathError,
};
use dollarbill::strategies::SignalAction;

fn confident_buy_call() -> SignalAction {
    SignalAction::BuyCall { strike: 150_000, days_to_expiry: 30, volatility: 250 }
}

// Confidence and floor in basis points (0.9 → 9000).

#[test]
fn validate_signal_rejects_no_action() {
    assert!(matches!(validate_signal(&SignalAction::NoAction, 9000, 6000), Err(OrderPathError::SignalRejected(_))));
}

#[test]
fn validate_signal_rejects_close_position() {
    assert!(matches!(
        validate_signal(&SignalAction::ClosePosition { position_id: 1 }, 9000, 6000),
        Err(OrderPathError::SignalRejected(_))
    ));
}

#[test]
fn validate_signal_rejects_low_confidence() {
    assert!(matches!(validate_signal(&confident_buy_call(), 1000, 6000), Err(OrderPathError::SignalRejected(_))));
}

#[test]
fn validate_signal_allows_actionable_confident_signal() {
    assert!(validate_signal(&confident_buy_call(), 9000, 6000).is_ok());
}

#[test]
fn validate_signal_messages_and_boundary() {
    match validate_signal(&confident_buy_call(), 1000, 6000) {
        Err(OrderPathError::SignalRejected(m)) => assert_eq!(m, "confidence 0.1000 < floor 0.6000"),
        other => panic!("unexpected {:?}", other),
    }
    assert!(validate_signal(&confident_buy_call(), 6000, 6000).is_ok());
    assert!(validate_signal_action(&confident_buy_call()).is_ok());
    match validate_signal(&SignalAction::NoAction, 0, 6000) {
        Err(OrderPathError::SignalRejected(m)) => assert_eq!(m, "NoAction is not actionable"),
        other => panic!("unexpected {:?}", other),
    }
}

#[test]
fn size_position_rejects_zero_and_negative() {
    assert!(matches!(size_position(0), Err(OrderPathError::InvalidSizing(_))));
    assert!(matches!(size_position(-5), Err(OrderPathError::InvalidSizing(_))));
}

#[test]
fn size_position_accepts_positive() {
    assert_eq!(size_position(3).unwrap(), 3);
}

#[test]
fn size_position_error_message() {
    match size_position(-5) {
        Err(OrderPathError::InvalidSizing(m)) => assert_eq!(m, "suggested size -5 must be >= 1"),
        other => panic!("unexpected {:?}", other),
    }
    match size_position(0) {
        Err(OrderPathError::InvalidSizing(m)) => assert_eq!(m, "suggested size 0 must be >= 1"),
        other => panic!("unexpected {:?}", other),
    }
}

#[test]
fn build_order_produces_single_leg_for_buy_call() {
    let order = build_order(&confident_buy_call(), "AAPL", 1, None).unwrap();
    assert!(order.symbol.is_some());
    assert!(order.legs.is_none());
}

#[test]
fn build_order_rejects_no_action() {
    assert!(matches!(
        build_order(&SignalAction::NoAction, "AAPL", 1, None),
        Err(OrderPathError::BuildOrderFailed(_))
    ));
}

#[test]
fn build_order_on_fixed_date_symbol() {
    let order = build_order_on(&confident_buy_call(), "AAPL", 2, None, (2025, 1, 1)).unwrap();
    assert_eq!(order.symbol.as_deref(), Some("AAPL  250131C00150000"));
    assert_eq!(order.qty.as_deref(), Some("2"));
}

#[test]
fn validate_occ_symbol_accepts_well_formed_future_contract() {
    let occ = occ_symbol("AAPL", 35, 1, 17, true, 150_000);
    assert!(validate_occ_symbol(&occ).is_ok());
}

#[test]
fn validate_occ_symbol_rejects_past_expiry() {
    let occ = occ_symbol("AAPL", 20, 1, 17, true, 150_000);
    assert!(matches!(validate_occ_symbol(&occ), Err(OrderPathError::OccRejected(_))));
}

#[test]
fn validate_occ_symbol_rejects_zero_strike() {
    let occ = occ_symbol("AAPL", 35, 1, 17, true, 0);
    assert!(matches!(validate_occ_symbol(&occ), Err(OrderPathError::OccRejected(_))));
}

#[test]
fn validate_occ_symbol_rejects_unparseable_garbage() {
    assert!(matches!(validate_occ_symbol("garbage"), Err(OrderPathError::OccRejected(_))));
}

#[test]
fn validate_occ_symbol_on_messages() {
    let today = (2025, 6, 1);
    match validate_occ_symbol_on("garbage", today) {
        Err(OrderPathError::OccRejected(m)) => assert_eq!(m, "garbage: does not parse as OCC"),
        other => panic!("unexpected {:?}", other),
    }
    match validate_occ_symbol_on("AAPL  250117C00150000", today) {
        Err(OrderPathError::OccRejected(m)) => {
            assert_eq!(m, "AAPL  250117C00150000: expiry 2025-01-17 is in the past")
        },
        other => panic!("unexpected {:?}", other),
    }
    match validate_occ_symbol_on("AAPL  260117C00000000", today) {
        Err(OrderPathError::OccRejected(m)) => assert_eq!(m, "AAPL  260117C00000000: strike 0 must be > 0"),
        other => panic!("unexpected {:?}", other),
    }
    match validate_occ_symbol_on("BRK.B 260117C00150000", today) {
        Err(OrderPathError::OccRejected(m)) => {
            assert_eq!(m, "BRK.B 260117C00150000: root 'BRK.B' is not 1-6 alphabetic chars")
        },
        other => panic!("unexpected {:?}", other),
    }
    // Expiring today is still acceptable.
    let p = validate_occ_symbol_on("AAPL  250601C00150000", today).unwrap();
    assert_eq!(p.root, "AAPL");
}

#[test]
fn generate_client_order_id_is_unique_across_calls() {
    let a = generate_client_order_id("opt");
    let b = generate_client_order_id("opt");
    assert_ne!(a, b);
    assert!(a.starts_with("db-opt-"));
}

#[test]
fn full_pipeline_happy_path() {
    let signal = confident_buy_call();
    validate_signal(&signal, 9000, 6000).unwrap();
    let qty = size_position(2).unwrap();
    let order = build_order(&signal, "AAPL", qty, None).unwrap();
    let occ = order.symbol.expect("single-leg order must carry a symbol");
    let parts = validate_occ_symbol(&occ).unwrap();
    assert_eq!(parts.root, "AAPL");
    let cid = generate_client_order_id("opt");
    assert!(!cid.is_empty());
}

#[test]
fn size_position_rejects_sizes_beyond_u32() {
    assert_eq!(size_position(u32::MAX as i64).unwrap(), u32::MAX);
    match size_position(u32::MAX as i64 + 1) {
        Err(OrderPathError::InvalidSizing(m)) => {
            assert_eq!(m, "suggested size 4294967296 exceeds the largest order quantity 4294967295")
        },
        other => panic!("unexpected {:?}", other),
    }
}

#[test]
fn client_order_id_at_formats_exactly() {
    assert_eq!(client_order_id_at("opt", 1700000000123, 42), "db-opt-1700000000123-42");
    assert_eq!(client_order_id_at("", -5, 0), "db---5-0");
}

#[test]
fn counter_ids_are_distinct_and_sequential() {
    let mut ids = ClientOrderIds::new();
    let a = ids.next_id_at("opt", 1000);
    let b = ids.next_id_at("opt", 1000);
    assert_eq!(a, "db-opt-1000-0");
    assert_eq!(b, "db-opt-1000-1");
    assert_eq!(ids.issued(), 2);
    let c = ids.next_id("opt");
    assert!(c.starts_with("db-opt-") && c.ends_with("-2"));
    assert_ne!(a, c);
}
