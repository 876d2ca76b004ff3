use dollarbill::alpaca::reconcile::{absent_from, position_key, trim};

#[test]
fn option_positions_keyed_by_root() {
    let k = position_key("us_option", "QCOM260508P00120000");
    assert_eq!(k.symbol, "QCOM26");
    assert_eq!(k.occ_symbol.as_deref(), Some("QCOM260508P00120000"));
    assert_eq!(k.expires_at.as_deref(), Some("2026-05-08"));
    let padded = position_key("us_option", "AAPL  260117C00150000");
    assert_eq!(padded.symbol, "AAPL");
    assert_eq!(padded.expires_at.as_deref(), Some("2026-01-17"));
}

#[test]
fn equity_and_short_symbols_keyed_by_symbol() {
    let k = position_key("us_equity", "AAPL");
    assert_eq!(k.symbol, "AAPL");
    assert!(k.occ_symbol.is_none() && k.expires_at.is_none());
    let short = position_key("us_option", "AAPL260117C0015");
    assert_eq!(short.symbol, "AAPL260117C0015");
    assert!(short.occ_symbol.is_none());
}

#[test]
fn stale_and_untracked_symbols() {
    let stored = vec!["AAPL".to_string(), "TSLA".to_string(), "QCOM".to_string()];
    let live = vec!["QCOM".to_string(), "NVDA".to_string()];
    assert_eq!(absent_from(&stored, &live), vec!["AAPL", "TSLA"]);
    assert_eq!(absent_from(&live, &stored), vec!["NVDA"]);
    assert!(absent_from(&live, &live).is_empty());
}

#[test]
fn trim_matches_std() {
    for s in ["  AAPL  ", "AAPL", "   ", "", "\u{3000}X\u{2003}", "a b"] {
        assert_eq!(trim(s), s.trim());
    }
}
