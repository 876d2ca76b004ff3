use dollarbill::market_data::symbols::{all_symbols, get_symbol, is_viral_stock, VIRAL_STOCKS};

#[test]
fn test_array_length() {
    assert_eq!(VIRAL_STOCKS.len(), 20);
}

#[test]
fn test_tesla_included() {
    assert!(VIRAL_STOCKS.contains(&"TSLA"));
}

#[test]
fn test_get_symbol() {
    assert_eq!(get_symbol(0), Some("TSLA"));
    assert_eq!(get_symbol(20), None);
}

#[test]
fn test_is_viral_stock() {
    assert!(is_viral_stock("TSLA"));
    assert!(is_viral_stock("GME"));
    assert!(!is_viral_stock("XYZ"));
}

#[test]
fn get_symbol_last_index_is_ford() {
    assert_eq!(get_symbol(19), Some("F"));
    assert_eq!(get_symbol(usize::MAX), None);
}

#[test]
fn all_symbols_matches_the_list_in_order() {
    let all = all_symbols();
    assert_eq!(all.len(), 20);
    assert_eq!(all[0], "TSLA");
    assert_eq!(all[19], "F");
    assert_eq!(all, VIRAL_STOCKS.to_vec());
}

#[test]
fn is_viral_stock_is_case_sensitive() {
    assert!(!is_viral_stock("tsla"));
    assert!(!is_viral_stock(""));
    assert!(is_viral_stock("F"));
}
