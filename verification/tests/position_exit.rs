use dollarbill::alpaca::position_exit::{position_exit_check, position_exit_check_on, ExitCheck};

fn reason(c: ExitCheck) -> String {
    match c {
        ExitCheck::Close { reason } => reason,
        other => panic!("expected Close, got {:?}", other),
    }
}

#[test]
fn expiry_based_exits() {
    let today = (2026, 5, 6);
    assert_eq!(reason(position_exit_check_on(Some("2026-05-06"), "", today, 30)), "expired / max days reached");
    assert_eq!(reason(position_exit_check_on(Some("2026-05-01"), "", today, 30)), "expired / max days reached");
    assert_eq!(
        reason(position_exit_check_on(Some("2026-05-07"), "", today, 30)),
        "1 DTE early exit (exp 2026-05-07)"
    );
    assert!(matches!(
        position_exit_check_on(Some("2026-05-08"), "", today, 30),
        ExitCheck::CheckProfitLoss { remaining_days: 2 }
    ));
    assert!(matches!(position_exit_check_on(Some("soon"), "", today, 30), ExitCheck::Hold));
}

#[test]
fn entry_age_based_exits() {
    let today = (2026, 5, 6);
    assert_eq!(
        reason(position_exit_check_on(None, "2026-04-06T14:30:00Z", today, 30)),
        "max 30 days elapsed"
    );
    assert!(matches!(position_exit_check_on(None, "2026-04-07T14:30:00Z", today, 30), ExitCheck::Hold));
    assert_eq!(
        reason(position_exit_check_on(None, "reconciled", today, 30)),
        "stale reconciled position (no valid entry date)"
    );
    assert_eq!(
        reason(position_exit_check_on(None, "2026", today, 30)),
        "stale reconciled position (no valid entry date)"
    );
    // Entry in the future: negative age, held.
    assert!(matches!(position_exit_check_on(None, "2026-06-01", today, 0), ExitCheck::Hold));
    assert_eq!(reason(position_exit_check_on(None, "2026-05-06", today, 0)), "max 0 days elapsed");
}

#[test]
fn exit_check_against_the_clock() {
    assert!(matches!(position_exit_check(Some("2000-01-01"), "", 5), ExitCheck::Close { .. }));
    assert!(matches!(position_exit_check(None, "2000-01-01T00:00:00Z", 5), ExitCheck::Close { .. }));
}
