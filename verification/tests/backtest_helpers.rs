use dollarbill::calendar::calendar_date;
use dollarbill::backtesting::holding_period::{calculate_days_between, first_token_of, is_whitespace, time_exit};
use dollarbill::data_files::{csv_candidates, find_csv};

#[test]
fn days_between_bar_timestamps() {
    assert_eq!(calculate_days_between("2025-01-03 00:00:00-05:00", "2025-01-10 00:00:00-05:00"), 7);
    assert_eq!(calculate_days_between("2025-01-10 00:00:00-05:00", "2025-01-03 00:00:00-05:00"), 7);
    assert_eq!(calculate_days_between("2024-02-28", "2024-03-01"), 2);
    assert_eq!(calculate_days_between("2023-02-28", "2023-03-01"), 1);
    assert_eq!(calculate_days_between("2020-01-01", "2025-01-01"), 1827);
    assert_eq!(calculate_days_between("2025-01-03", "2025-01-03 12:00"), 0);
}

#[test]
fn days_between_falls_back_to_one() {
    assert_eq!(calculate_days_between("", "2025-01-03"), 1);
    assert_eq!(calculate_days_between("not-a-date", "2025-01-03"), 1);
    assert_eq!(calculate_days_between("2025-02-30", "2025-01-03"), 1);
}

#[test]
fn first_token_skips_leading_whitespace() {
    assert_eq!(first_token_of("  2025-01-03 00:00"), Some("2025-01-03"));
    assert_eq!(first_token_of("abc"), Some("abc"));
    assert_eq!(first_token_of(" \t "), None);
}

#[test]
fn csv_candidates_lowercase_symbol() {
    assert_eq!(
        csv_candidates("TSLA"),
        vec!["data/tsla_five_year.csv", "data/tsla_one_year.csv", "data/tesla_one_year.csv"]
    );
    assert_eq!(csv_candidates("Aapl"), vec!["data/aapl_five_year.csv", "data/aapl_one_year.csv"]);
}

#[test]
fn find_csv_prefers_first_existing() {
    assert_eq!(find_csv("AAPL", &vec![false, true]), "data/aapl_one_year.csv");
    assert_eq!(find_csv("AAPL", &vec![false, false, true]), "data/aapl_five_year.csv");
    assert_eq!(find_csv("AAPL", &vec![true, true, true]), "data/aapl_five_year.csv");
    assert_eq!(find_csv("TSLA", &vec![false, false, true]), "data/tesla_one_year.csv");
    assert_eq!(find_csv("NVDA", &vec![false, false, false]), "data/nvda_five_year.csv");
    assert_eq!(find_csv("NVDA", &vec![]), "data/nvda_five_year.csv");
}

#[test]
fn time_based_exits() {
    assert_eq!(time_exit(30, 30, 45), Some("Max Hold Period"));
    assert_eq!(time_exit(43, 60, 45), Some("Near Expiry"));
    assert_eq!(time_exit(42, 60, 45), None);
    assert_eq!(time_exit(0, 60, 1), Some("Near Expiry"));
    assert_eq!(time_exit(0, 0, 45), Some("Max Hold Period"));
}

#[test]
fn whitespace_class_matches_std_for_every_char() {
    for u in 0u32..=0x10FFFF {
        if let Some(c) = char::from_u32(u) {
            assert_eq!(is_whitespace(c), c.is_whitespace(), "U+{:04X}", u);
        }
    }
}

#[test]
fn calendar_date_matches_chrono() {
    for y in [-262144, -262143, -401, -100, -4, -1, 0, 1, 1900, 2000, 2023, 2024, 2100, 262142, 262143] {
        for m in 0..=13u32 {
            for d in 0..=32u32 {
                let ours = calendar_date(y, m, d);
                let theirs = chrono::NaiveDate::from_ymd_opt(y, m, d);
                assert_eq!(ours.is_some(), theirs.is_some(), "{}-{}-{}", y, m, d);
            }
        }
    }
}
