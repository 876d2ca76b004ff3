//! E-mail alerting: which configured alerts are due.
//!
//! Building and delivering the message over SMTP is the caller's part; the
//! library decides whether alerting is usable and whether a given event
//! should produce an e-mail.

use vstd::prelude::*;

verus! {

/// SMTP alerting settings (`[alerts]` in the bot configuration).
#[derive(Debug, Clone)]
pub struct AlertConfig {
    pub enabled: bool,
    pub smtp_host: String,
    pub smtp_port: u16,
    pub smtp_user: String,
    /// Empty means "take it from the environment".
    pub smtp_password: String,
    pub from: String,
    pub to: String,
    pub use_smtps: bool,
    pub on_circuit_breaker: bool,
    pub on_fill: bool,
    pub on_daily_loss: bool,
    pub on_disconnect: bool,
}

/// The events the bot can alert on.
#[derive(Debug, Clone, Copy, PartialEq, Eq, Structural)]
pub enum AlertEvent {
    CircuitBreaker,
    Fill,
    DailyLossWarning,
    Disconnect,
}

/// Sends alert e-mails according to an [`AlertConfig`].
#[derive(Debug, Clone)]
pub struct Alerter {
    cfg: AlertConfig,
    smtp_pass: String,
}

/// The password in use: the configured one, else the environment's.
pub open spec fn effective_password(cfg: AlertConfig, env_password: Seq<char>) -> Seq<char> {
    if cfg.smtp_password@.len() == 0 {
        env_password
    } else {
        cfg.smtp_password@
    }
}

/// Alerting is usable: enabled, with a password, host, user and both addresses.
pub open spec fn active(cfg: AlertConfig, password: Seq<char>) -> bool {
    &&& cfg.enabled
    &&& password.len() > 0
    &&& cfg.smtp_host@.len() > 0
    &&& cfg.smtp_user@.len() > 0
    &&& cfg.to@.len() > 0
    &&& cfg.from@.len() > 0
}

/// The configuration flag that turns alerts for `event` on.
pub open spec fn event_enabled(cfg: AlertConfig, event: AlertEvent) -> bool {
    match event {
        AlertEvent::CircuitBreaker => cfg.on_circuit_breaker,
        AlertEvent::Fill => cfg.on_fill,
        AlertEvent::DailyLossWarning => cfg.on_daily_loss,
        AlertEvent::Disconnect => cfg.on_disconnect,
    }
}

impl Alerter {
    /// The configuration this alerter was built from.
    pub closed spec fn config(&self) -> AlertConfig {
        self.cfg
    }

    /// The SMTP password this alerter uses.
    pub closed spec fn password(&self) -> Seq<char> {
        self.smtp_pass@
    }

    /// An alerter for `cfg`; `env_password` is the value of the
    /// `DOLLARBILL_SMTP_PASSWORD` environment variable (empty when unset),
    /// used only when the configuration holds no password.
    pub fn new(cfg: AlertConfig, env_password: String) -> (a: Alerter)
        ensures
            a.config() == cfg,
            a.password() == effective_password(cfg, env_password@),
    {
        let smtp_pass = if cfg.smtp_password.as_str().is_empty() {
            env_password
        } else {
            cfg.smtp_password.clone()
        };
        Alerter { cfg, smtp_pass }
    }

    /// Whether alerting is enabled and fully configured.
    pub fn is_active(&self) -> (b: bool)
        ensures
            b == active(self.config(), self.password()),
    {
        self.cfg.enabled && !self.smtp_pass.as_str().is_empty() && !self.cfg.smtp_host.as_str().is_empty()
            && !self.cfg.smtp_user.as_str().is_empty() && !self.cfg.to.as_str().is_empty()
            && !self.cfg.from.as_str().is_empty()
    }

    /// Whether an e-mail is to be sent for `event`: its flag is on and
    /// alerting is active.
    pub fn should_send(&self, event: AlertEvent) -> (b: bool)
        ensures
            b == (event_enabled(self.config(), event) && active(self.config(), self.password())),
    {
        let flag = match event {
            AlertEvent::CircuitBreaker => self.cfg.on_circuit_breaker,
            AlertEvent::Fill => self.cfg.on_fill,
            AlertEvent::DailyLossWarning => self.cfg.on_daily_loss,
            AlertEvent::Disconnect => self.cfg.on_disconnect,
        };
        flag && self.is_active()
    }

    /// The settings, for building the message and the transport.
    pub fn settings(&self) -> (r: &AlertConfig)
        ensures
            *r == self.config(),
    {
        &self.cfg
    }

    /// The SMTP password in use.
    pub fn smtp_password(&self) -> (r: &str)
        ensures
            r@ == self.password(),
    {
        self.smtp_pass.as_str()
    }
}

/// Law: nothing is sent while alerting is inactive, whatever the event and
/// its flag.
pub proof fn lemma_inactive_sends_nothing(cfg: AlertConfig, password: Seq<char>, event: AlertEvent)
    requires
        !active(cfg, password),
    ensures
        !(event_enabled(cfg, event) && active(cfg, password)),
{
}

} // verus!
