use dollarbill::alpaca::spend_guard::{should_submit, DailySpend, SpendAlerts};

#[test]
fn warning_then_trip_each_fire_once() {
    // $500 limit, warning at 80%.
    let mut d = DailySpend::new(50_000, 8_000);
    assert_eq!(d.record_fill(30_000), SpendAlerts { warn: false, trip: false });
    assert_eq!(d.record_fill(10_000), SpendAlerts { warn: true, trip: false });
    assert!(d.is_warned() && !d.is_broken());
    assert_eq!(d.record_fill(5_000), SpendAlerts { warn: false, trip: false });
    assert_eq!(d.record_fill(5_000), SpendAlerts { warn: false, trip: true });
    assert!(d.is_broken());
    assert_eq!(d.record_fill(1), SpendAlerts { warn: false, trip: false });
    assert!(d.is_broken());
    assert_eq!(d.spent_cents(), 50_001);
}

#[test]
fn one_large_fill_warns_and_trips_together() {
    let mut d = DailySpend::new(10_000, 8_000);
    assert_eq!(d.record_fill(12_000), SpendAlerts { warn: true, trip: true });
}

#[test]
fn spend_saturates_instead_of_wrapping() {
    let mut d = DailySpend::new(u64::MAX, 10_000);
    assert_eq!(d.record_fill(u64::MAX - 1), SpendAlerts { warn: false, trip: false });
    assert_eq!(d.record_fill(5), SpendAlerts { warn: true, trip: true });
    assert_eq!(d.spent_cents(), u64::MAX);
}

#[test]
fn dry_run_never_submits() {
    assert!(!should_submit(true, true));
    assert!(!should_submit(true, false));
    assert!(!should_submit(false, false));
    assert!(should_submit(false, true));
}
