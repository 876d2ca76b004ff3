use dollarbill::alerting::{AlertConfig, AlertEvent, Alerter};

fn full_config() -> AlertConfig {
    AlertConfig {
        enabled: true,
        smtp_host: "smtp.example.com".to_string(),
        smtp_port: 587,
        smtp_user: "bot".to_string(),
        smtp_password: String::new(),
        from: "bot@example.com".to_string(),
        to: "me@example.com".to_string(),
        use_smtps: false,
        on_circuit_breaker: true,
        on_fill: false,
        on_daily_loss: true,
        on_disconnect: true,
    }
}

#[test]
fn password_falls_back_to_environment_value() {
    let a = Alerter::new(full_config(), "from-env".to_string());
    assert_eq!(a.smtp_password(), "from-env");
    assert!(a.is_active());
    let mut cfg = full_config();
    cfg.smtp_password = "configured".to_string();
    let b = Alerter::new(cfg, "from-env".to_string());
    assert_eq!(b.smtp_password(), "configured");
}

#[test]
fn inactive_without_password_or_when_disabled() {
    let a = Alerter::new(full_config(), String::new());
    assert!(!a.is_active());
    let mut cfg = full_config();
    cfg.enabled = false;
    assert!(!Alerter::new(cfg, "pw".to_string()).is_active());
    let mut cfg = full_config();
    cfg.to = String::new();
    assert!(!Alerter::new(cfg, "pw".to_string()).is_active());
}

#[test]
fn should_send_follows_event_flags() {
    let a = Alerter::new(full_config(), "pw".to_string());
    assert!(a.should_send(AlertEvent::CircuitBreaker));
    assert!(!a.should_send(AlertEvent::Fill));
    assert!(a.should_send(AlertEvent::DailyLossWarning));
    assert!(a.should_send(AlertEvent::Disconnect));
    let inactive = Alerter::new(full_config(), String::new());
    assert!(!inactive.should_send(AlertEvent::CircuitBreaker));
    assert_eq!(a.settings().smtp_port, 587);
}
