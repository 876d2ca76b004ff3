use dollarbill::alpaca::occ::{occ_symbol, parse_occ, parse_occ_expiry, parse_occ_expiry_str};

#[test]
fn compact_put() {
    // 18-char compact: GLD260626P00405000
    let p = parse_occ("GLD260626P00405000").unwrap();
    assert_eq!(p.root, "GLD");
    assert_eq!(p.expiry_str, "2026-06-26");
    assert!(!p.is_call);
    assert_eq!(p.strike_thousandths, 405_000);
}

#[test]
fn compact_call_5char_root() {
    let p = parse_occ("GOOGL260117C00150000").unwrap();
    assert_eq!(p.root, "GOOGL");
    assert_eq!(p.expiry_str, "2026-01-17");
    assert!(p.is_call);
    assert_eq!(p.strike_thousandths, 150_000);
}

#[test]
fn compact_put_4char_root() {
    let p = parse_occ("QCOM260508P00120000").unwrap();
    assert_eq!(p.root, "QCOM");
    assert_eq!(p.expiry_str, "2026-05-08");
    assert!(!p.is_call);
    assert_eq!(p.strike_thousandths, 120_000);
}

#[test]
fn padded_call() {
    let p = parse_occ("AAPL  260117C00150000").unwrap();
    assert_eq!(p.root, "AAPL");
    assert_eq!(p.expiry_str, "2026-01-17");
    assert!(p.is_call);
    assert_eq!(p.strike_thousandths, 150_000);
}

#[test]
fn padded_put_test_fixture() {
    let p = parse_occ("TEST  251219P00250000").unwrap();
    assert_eq!(p.root, "TEST");
    assert_eq!(p.expiry_str, "2025-12-19");
    assert!(!p.is_call);
    assert_eq!(p.strike_thousandths, 250_000);
}

#[test]
fn too_short_returns_none() {
    assert!(parse_occ("AAPL260").is_none());
}

#[test]
fn invalid_type_char_returns_none() {
    assert!(parse_occ("AAPL  260117X00150000").is_none());
}

#[test]
fn parse_occ_reports_date_fields() {
    let p = parse_occ("SPY   251219P00002500").unwrap();
    assert_eq!((p.year, p.month, p.day), (2025, 12, 19));
    assert_eq!(p.strike_thousandths, 2_500);
}

#[test]
fn parse_occ_rejects_impossible_date_and_blank_root() {
    assert!(parse_occ("AAPL  260231C00150000").is_none());
    assert!(parse_occ("      260117C00150000").is_none());
    assert!(parse_occ("AAPL  26011XC00150000").is_none());
}

#[test]
fn occ_round_trip_through_builder() {
    let s = occ_symbol("MSFT", 27, 3, 19, false, 412_500);
    assert_eq!(s, "MSFT  270319P00412500");
    let p = parse_occ(&s).unwrap();
    assert_eq!(p.root, "MSFT");
    assert_eq!(p.expiry_str, "2027-03-19");
    assert!(!p.is_call);
    assert_eq!(p.strike_thousandths, 412_500);
}

#[test]
fn expiry_string_helpers() {
    assert_eq!(parse_occ_expiry_str("AAPL  260117C00150000"), Some("2026-01-17".to_string()));
    assert_eq!(parse_occ_expiry_str("garbage"), None);
    assert_eq!(parse_occ_expiry("AAPL  260117C00150000"), Some("2026-01-17".to_string()));
    assert_eq!(parse_occ_expiry("QCOM260508P00120000"), Some("2026-05-08".to_string()));
    assert_eq!(parse_occ_expiry("GOOGL260117C00150000"), Some("2026-01-17".to_string()));
    assert_eq!(parse_occ_expiry("AAPL  261317C00150000"), None);
    assert_eq!(parse_occ_expiry("0123456789abcd"), None);
}
