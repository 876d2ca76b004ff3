//! The live bot's daily-spend circuit breaker and its order gate.
//!
//! Each filled order adds its estimated premium to the day's spend. The
//! first fill that brings the spend to the warning fraction of the daily
//! limit raises one warning; the first fill that brings it to the limit
//! trips the breaker, after which no new signals are evaluated. Amounts are
//! in cents and the warning fraction in basis points.

use vstd::prelude::*;

verus! {

/// What a recorded fill calls for: a one-time warning, a one-time trip of
/// the breaker, or both.
#[derive(Debug, Clone, Copy, PartialEq, Eq, Structural)]
pub struct SpendAlerts {
    pub warn: bool,
    pub trip: bool,
}

/// The mathematical content of a [`DailySpend`].
pub struct SpendView {
    pub spent: nat,
    pub limit: nat,
    pub warn_bp: nat,
    pub warned: bool,
    pub broken: bool,
}

/// The day's spend against its limit, with the warning and breaker flags.
pub struct DailySpend {
    spent_cents: u64,
    limit_cents: u64,
    warn_bp: u32,
    warned: bool,
    broken: bool,
}

impl View for DailySpend {
    type V = SpendView;

    closed spec fn view(&self) -> SpendView {
        SpendView {
            spent: self.spent_cents as nat,
            limit: self.limit_cents as nat,
            warn_bp: self.warn_bp as nat,
            warned: self.warned,
            broken: self.broken,
        }
    }
}

/// The spend after adding `cost`, held at `u64::MAX` cents.
pub open spec fn spend_after(spent: nat, cost: nat) -> nat {
    if spent + cost > u64::MAX {
        u64::MAX as nat
    } else {
        spent + cost
    }
}

/// Whether `spent` has reached `warn_bp` basis points of `limit`.
pub open spec fn reaches_warning(spent: nat, limit: nat, warn_bp: nat) -> bool {
    spent * 10000 >= warn_bp * limit
}

/// The alerts a fill of `cost` raises on the state `v`.
pub open spec fn alerts_for(v: SpendView, cost: nat) -> SpendAlerts {
    let s = spend_after(v.spent, cost);
    SpendAlerts {
        warn: !v.warned && reaches_warning(s, v.limit, v.warn_bp),
        trip: !v.broken && s >= v.limit,
    }
}

/// The state after a fill of `cost`.
pub open spec fn state_after(v: SpendView, cost: nat) -> SpendView {
    let a = alerts_for(v, cost);
    SpendView {
        spent: spend_after(v.spent, cost),
        warned: v.warned || a.warn,
        broken: v.broken || a.trip,
        ..v
    }
}

impl DailySpend {
    /// A day with nothing spent, a limit of `limit_cents` and a warning at
    /// `warn_bp` basis points of the limit.
    pub fn new(limit_cents: u64, warn_bp: u32) -> (d: DailySpend)
        ensures
            d@.spent == 0,
            d@.limit == limit_cents,
            d@.warn_bp == warn_bp,
            !d@.warned,
            !d@.broken,
    {
        DailySpend { spent_cents: 0, limit_cents, warn_bp, warned: false, broken: false }
    }

    /// Record a filled order's estimated cost; returns the alerts it raises.
    pub fn record_fill(&mut self, cost_cents: u64) -> (a: SpendAlerts)
        ensures
            a == alerts_for(old(self)@, cost_cents as nat),
            final(self)@ == state_after(old(self)@, cost_cents as nat),
    {
        let spent = self.spent_cents.saturating_add(cost_cents);
        let lhs: u128 = (spent as u128) * 10000;
        let w: u128 = self.warn_bp as u128;
        let l: u128 = self.limit_cents as u128;
        assert(w * l <= 0xFFFF_FFFF_FFFF_FFFF_FFFF_FFFF_FFFF_FFFFu128) by (nonlinear_arith)
            requires
                w <= 0xFFFF_FFFFu128,
                l <= 0xFFFF_FFFF_FFFF_FFFFu128,
        ;
        let rhs: u128 = w * l;
        let warn = !self.warned && lhs >= rhs;
        let trip = !self.broken && spent >= self.limit_cents;
        self.spent_cents = spent;
        if warn {
            self.warned = true;
        }
        if trip {
            self.broken = true;
        }
        SpendAlerts { warn, trip }
    }

    /// Whether the breaker has tripped.
    pub fn is_broken(&self) -> (b: bool)
        ensures
            b == self@.broken,
    {
        self.broken
    }

    /// Whether the warning has been raised.
    pub fn is_warned(&self) -> (b: bool)
        ensures
            b == self@.warned,
    {
        self.warned
    }

    /// The day's spend so far, in cents.
    pub fn spent_cents(&self) -> (r: u64)
        ensures
            r == self@.spent,
    {
        self.spent_cents
    }
}

/// Whether an actionable signal becomes a submitted order: never in a dry
/// run, and only when the portfolio decision allows trading.
pub fn should_submit(dry_run: bool, can_trade: bool) -> (b: bool)
    ensures
        b == (!dry_run && can_trade),
{
    !dry_run && can_trade
}

/// Law: the breaker and the warning, once set, stay set, and each is raised
/// at most once; the spend never falls.
pub proof fn lemma_alerts_fire_once(v: SpendView, cost: nat)
    ensures
        v.broken ==> state_after(v, cost).broken && !alerts_for(v, cost).trip,
        v.warned ==> state_after(v, cost).warned && !alerts_for(v, cost).warn,
        v.spent <= u64::MAX ==> state_after(v, cost).spent >= v.spent,
{
}

/// Law: the fill that first brings the spend to the limit trips the
/// breaker, and after it the breaker stays tripped.
pub proof fn lemma_trip_at_limit(v: SpendView, cost: nat)
    requires
        !v.broken,
    ensures
        alerts_for(v, cost).trip <==> spend_after(v.spent, cost) >= v.limit,
        state_after(v, cost).broken <==> spend_after(v.spent, cost) >= v.limit,
{
}

} // verus!
