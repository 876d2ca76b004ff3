use dollarbill::market_data::expirations::{expiration_dates, iso_date_string};

#[test]
fn expiration_dates_from_timestamps() {
    let ts = vec![1767225600, 1768521600 + 3600, 0, -86400];
    assert_eq!(expiration_dates(&ts), vec!["2026-01-01", "2026-01-16", "1970-01-01", "1969-12-31"]);
}

#[test]
fn expiration_dates_skip_out_of_range() {
    let ts = vec![i64::MAX, 1767225600, i64::MIN];
    assert_eq!(expiration_dates(&ts), vec!["2026-01-01"]);
    assert!(expiration_dates(&vec![]).is_empty());
}

#[test]
fn iso_date_string_year_forms() {
    assert_eq!(iso_date_string((2026, 1, 16)), "2026-01-16");
    assert_eq!(iso_date_string((33, 12, 5)), "0033-12-05");
    assert_eq!(iso_date_string((10000, 1, 1)), "+10000-01-01");
    assert_eq!(iso_date_string((-1, 1, 1)), "-0001-01-01");
    // chrono formats the same way.
    let d = chrono::NaiveDate::from_ymd_opt(10000, 1, 1).unwrap();
    assert_eq!(d.format("%Y-%m-%d").to_string(), "+10000-01-01");
    let d = chrono::NaiveDate::from_ymd_opt(-1, 1, 1).unwrap();
    assert_eq!(d.format("%Y-%m-%d").to_string(), "-0001-01-01");
}
