//! Exact-arithmetic accounting ledger.
//!
//! Pricing works in floating point; the bookkeeping — cash balance,
//! commissions and realized P&L over many trades — is kept here in
//! `rust_decimal` arithmetic so that reports use exact figures. Amounts
//! are [`Money`]: a decimal mantissa and scale, the parts of a
//! `rust_decimal::Decimal`.

use vstd::prelude::*;

verus! {

/// The largest magnitude of a 96-bit decimal mantissa, 2^96 − 1.
pub const MAX_MANTISSA: i128 = 0xFFFF_FFFF_FFFF_FFFF_FFFF_FFFF;
/// The largest decimal scale, 28.
pub const MAX_SCALE: u32 = 28;

/// A decimal amount `mantissa / 10^scale`, with a mantissa of at most 96
/// bits and a scale of at most 28.
#[derive(Debug, Clone, Copy, PartialEq, Eq, Structural)]
pub struct Money {
    mantissa: i128,
    scale: u32,
}

/// The parts fit a decimal.
pub open spec fn decimal_parts(mantissa: int, scale: int) -> bool {
    -MAX_MANTISSA <= mantissa <= MAX_MANTISSA && 0 <= scale <= MAX_SCALE
}

impl Money {
    #[verifier::type_invariant]
    spec fn fits(self) -> bool {
        decimal_parts(self.mantissa as int, self.scale as int)
    }

    /// The mantissa.
    pub closed spec fn m(self) -> i128 {
        self.mantissa
    }

    /// The scale (number of decimal places).
    pub closed spec fn s(self) -> u32 {
        self.scale
    }

    /// The amount `mantissa / 10^scale`, when the parts fit a decimal.
    pub fn new(mantissa: i128, scale: u32) -> (r: Option<Money>)
        ensures
            r is Some <==> decimal_parts(mantissa as int, scale as int),
            r matches Some(x) ==> x.m() == mantissa && x.s() == scale,
    {
        if -MAX_MANTISSA <= mantissa && mantissa <= MAX_MANTISSA && scale <= MAX_SCALE {
            Some(Money { mantissa, scale })
        } else {
            None
        }
    }

    /// Zero.
    pub fn zero() -> (r: Money)
        ensures
            r.m() == 0 && r.s() == 0,
    {
        Money { mantissa: 0, scale: 0 }
    }

    /// The mantissa.
    pub fn mantissa(&self) -> (r: i128)
        ensures
            r == self.m(),
    {
        self.mantissa
    }

    /// The scale.
    pub fn scale(&self) -> (r: u32)
        ensures
            r == self.s(),
    {
        self.scale
    }

    /// Whether the amount is zero (`Decimal::is_zero`).
    pub fn is_zero(&self) -> (b: bool)
        ensures
            b == (self.m() == 0),
    {
        self.mantissa == 0
    }
}

/// What `Decimal::checked_add` returns for the decimals with these parts,
/// read back as parts.
pub uninterp spec fn decimal_sum(a_mantissa: i128, a_scale: u32, b_mantissa: i128, b_scale: u32) -> Option<
    (i128, u32),
>;

/// What `Decimal::checked_sub` returns, read back as parts.
pub uninterp spec fn decimal_difference(a_mantissa: i128, a_scale: u32, b_mantissa: i128, b_scale: u32) -> Option<
    (i128, u32),
>;

/// What `Decimal::checked_div` returns, read back as parts.
pub uninterp spec fn decimal_quotient(a_mantissa: i128, a_scale: u32, b_mantissa: i128, b_scale: u32) -> Option<
    (i128, u32),
>;

/// `Decimal::checked_add` on the decimals with parts `a` and `b`.
/// Claimed: the result is the named `decimal_sum`, and a result's parts fit
/// a decimal (the crate's representation guarantees it).
#[verifier::external_body]
fn checked_add_parts(a: (i128, u32), b: (i128, u32)) -> (r: Option<(i128, u32)>)
    requires
        decimal_parts(a.0 as int, a.1 as int),
        decimal_parts(b.0 as int, b.1 as int),
    ensures
        r == decimal_sum(a.0, a.1, b.0, b.1),
        r matches Some(t) ==> decimal_parts(t.0 as int, t.1 as int),
{
    let x = rust_decimal::Decimal::from_i128_with_scale(a.0, a.1);
    let y = rust_decimal::Decimal::from_i128_with_scale(b.0, b.1);
    match x.checked_add(y) {
        Some(d) => Some((d.mantissa(), d.scale())),
        None => None,
    }
}

/// `Decimal::checked_sub` on the decimals with parts `a` and `b`.
/// Claimed: the result is the named `decimal_difference`, and a result's
/// parts fit a decimal.
#[verifier::external_body]
fn checked_sub_parts(a: (i128, u32), b: (i128, u32)) -> (r: Option<(i128, u32)>)
    requires
        decimal_parts(a.0 as int, a.1 as int),
        decimal_parts(b.0 as int, b.1 as int),
    ensures
        r == decimal_difference(a.0, a.1, b.0, b.1),
        r matches Some(t) ==> decimal_parts(t.0 as int, t.1 as int),
{
    let x = rust_decimal::Decimal::from_i128_with_scale(a.0, a.1);
    let y = rust_decimal::Decimal::from_i128_with_scale(b.0, b.1);
    match x.checked_sub(y) {
        Some(d) => Some((d.mantissa(), d.scale())),
        None => None,
    }
}

/// `Decimal::checked_div` on the decimals with parts `a` and `b`.
/// Claimed: the result is the named `decimal_quotient`; a result's parts fit
/// a decimal; division by zero gives `None`.
#[verifier::external_body]
fn checked_div_parts(a: (i128, u32), b: (i128, u32)) -> (r: Option<(i128, u32)>)
    requires
        decimal_parts(a.0 as int, a.1 as int),
        decimal_parts(b.0 as int, b.1 as int),
    ensures
        r == decimal_quotient(a.0, a.1, b.0, b.1),
        r matches Some(t) ==> decimal_parts(t.0 as int, t.1 as int),
        b.0 == 0 ==> r is None,
{
    let x = rust_decimal::Decimal::from_i128_with_scale(a.0, a.1);
    let y = rust_decimal::Decimal::from_i128_with_scale(b.0, b.1);
    match x.checked_div(y) {
        Some(d) => Some((d.mantissa(), d.scale())),
        None => None,
    }
}

/// The parts of an amount.
pub open spec fn parts(x: Money) -> (i128, u32) {
    (x.m(), x.s())
}

fn money_of(t: (i128, u32)) -> (r: Money)
    requires
        decimal_parts(t.0 as int, t.1 as int),
    ensures
        parts(r) == t,
{
    Money { mantissa: t.0, scale: t.1 }
}

fn add_money(a: Money, b: Money) -> (r: Option<Money>)
    ensures
        match decimal_sum(a.m(), a.s(), b.m(), b.s()) {
            Some(t) => r matches Some(x) && parts(x) == t,
            None => r is None,
        },
{
    proof {
        use_type_invariant(&a);
        use_type_invariant(&b);
    }
    match checked_add_parts((a.mantissa, a.scale), (b.mantissa, b.scale)) {
        Some(t) => Some(money_of(t)),
        None => None,
    }
}

fn sub_money(a: Money, b: Money) -> (r: Option<Money>)
    ensures
        match decimal_difference(a.m(), a.s(), b.m(), b.s()) {
            Some(t) => r matches Some(x) && parts(x) == t,
            None => r is None,
        },
{
    proof {
        use_type_invariant(&a);
        use_type_invariant(&b);
    }
    match checked_sub_parts((a.mantissa, a.scale), (b.mantissa, b.scale)) {
        Some(t) => Some(money_of(t)),
        None => None,
    }
}

fn div_money(a: Money, b: Money) -> (r: Option<Money>)
    ensures
        match decimal_quotient(a.m(), a.s(), b.m(), b.s()) {
            Some(t) => r matches Some(x) && parts(x) == t,
            None => r is None,
        },
        b.m() == 0 ==> r is None,
{
    proof {
        use_type_invariant(&a);
        use_type_invariant(&b);
    }
    match checked_div_parts((a.mantissa, a.scale), (b.mantissa, b.scale)) {
        Some(t) => Some(money_of(t)),
        None => None,
    }
}

/// An amount overflowed the decimal range, or a trade count overflowed.
#[derive(Debug, Clone, Copy, PartialEq, Eq, Structural)]
pub enum LedgerError {
    Overflow,
}

/// Exact-precision bookkeeper for a single strategy run.
#[derive(Debug, Clone)]
pub struct Ledger {
    starting_balance: Money,
    balance: Money,
    total_commissions: Money,
    total_realized_pnl: Money,
    total_debit_trades: u64,
    total_credit_trades: u64,
}

/// The mathematical content of a [`Ledger`]: the parts of its amounts and
/// its trade counts.
pub struct LedgerView {
    pub starting_balance: (i128, u32),
    pub balance: (i128, u32),
    pub total_commissions: (i128, u32),
    pub total_realized_pnl: (i128, u32),
    pub debit_trades: nat,
    pub credit_trades: nat,
}

impl View for Ledger {
    type V = LedgerView;

    closed spec fn view(&self) -> LedgerView {
        LedgerView {
            starting_balance: parts(self.starting_balance),
            balance: parts(self.balance),
            total_commissions: parts(self.total_commissions),
            total_realized_pnl: parts(self.total_realized_pnl),
            debit_trades: self.total_debit_trades as nat,
            credit_trades: self.total_credit_trades as nat,
        }
    }
}

/// `Decimal::checked_add` on two amounts given by their parts.
pub open spec fn sum_of(a: (i128, u32), b: (i128, u32)) -> Option<(i128, u32)> {
    decimal_sum(a.0, a.1, b.0, b.1)
}

/// `Decimal::checked_sub` on two amounts given by their parts.
pub open spec fn difference_of(a: (i128, u32), b: (i128, u32)) -> Option<(i128, u32)> {
    decimal_difference(a.0, a.1, b.0, b.1)
}

/// The ledger after debiting `cost` with commission `commission`: the
/// balance falls by the cost, commissions grow, one more opening trade;
/// `None` when an amount or the count overflows.
pub open spec fn after_debit(l: LedgerView, cost: (i128, u32), commission: (i128, u32)) -> Option<LedgerView> {
    match (difference_of(l.balance, cost), sum_of(l.total_commissions, commission)) {
        (Some(b), Some(c)) => if l.debit_trades < u64::MAX {
            Some(LedgerView { balance: b, total_commissions: c, debit_trades: l.debit_trades + 1, ..l })
        } else {
            None
        },
        _ => None,
    }
}

/// The ledger after crediting `proceeds`, with commission `commission` and
/// realized P&L `pnl`; `None` when an amount or the count overflows.
pub open spec fn after_credit(
    l: LedgerView,
    proceeds: (i128, u32),
    commission: (i128, u32),
    pnl: (i128, u32),
) -> Option<LedgerView> {
    match (sum_of(l.balance, proceeds), sum_of(l.total_commissions, commission), sum_of(l.total_realized_pnl, pnl)) {
        (Some(b), Some(c), Some(p)) => if l.credit_trades < u64::MAX {
            Some(
                LedgerView {
                    balance: b,
                    total_commissions: c,
                    total_realized_pnl: p,
                    credit_trades: l.credit_trades + 1,
                    ..l
                },
            )
        } else {
            None
        },
        _ => None,
    }
}

impl Ledger {
    /// A ledger holding `starting_balance`, with no trades yet.
    pub fn new(starting_balance: Money) -> (l: Ledger)
        ensures
            l@.starting_balance == parts(starting_balance),
            l@.balance == parts(starting_balance),
            l@.total_commissions == (0i128, 0u32),
            l@.total_realized_pnl == (0i128, 0u32),
            l@.debit_trades == 0,
            l@.credit_trades == 0,
    {
        Ledger {
            starting_balance,
            balance: starting_balance,
            total_commissions: Money::zero(),
            total_realized_pnl: Money::zero(),
            total_debit_trades: 0,
            total_credit_trades: 0,
        }
    }

    /// Debit the ledger: `cost` is the total outflow, `commission` its
    /// brokerage part. On overflow the ledger is left unchanged.
    pub fn debit(&mut self, cost: Money, commission: Money) -> (r: Result<(), LedgerError>)
        ensures
            match after_debit(old(self)@, parts(cost), parts(commission)) {
                Some(v) => r is Ok && final(self)@ == v,
                None => r == Err::<(), LedgerError>(LedgerError::Overflow) && final(self)@ == old(self)@,
            },
    {
        let b = match sub_money(self.balance, cost) {
            Some(b) => b,
            None => return Err(LedgerError::Overflow),
        };
        let c = match add_money(self.total_commissions, commission) {
            Some(c) => c,
            None => return Err(LedgerError::Overflow),
        };
        if self.total_debit_trades == u64::MAX {
            return Err(LedgerError::Overflow);
        }
        self.balance = b;
        self.total_commissions = c;
        self.total_debit_trades = self.total_debit_trades + 1;
        Ok(())
    }

    /// Credit the ledger: `proceeds` is the total inflow, `commission` the
    /// brokerage part already deducted, `realized_pnl` the net result of the
    /// closed position. On overflow the ledger is left unchanged.
    pub fn credit(&mut self, proceeds: Money, commission: Money, realized_pnl: Money) -> (r: Result<
        (),
        LedgerError,
    >)
        ensures
            match after_credit(old(self)@, parts(proceeds), parts(commission), parts(realized_pnl)) {
                Some(v) => r is Ok && final(self)@ == v,
                None => r == Err::<(), LedgerError>(LedgerError::Overflow) && final(self)@ == old(self)@,
            },
    {
        let b = match add_money(self.balance, proceeds) {
            Some(b) => b,
            None => return Err(LedgerError::Overflow),
        };
        let c = match add_money(self.total_commissions, commission) {
            Some(c) => c,
            None => return Err(LedgerError::Overflow),
        };
        let p = match add_money(self.total_realized_pnl, realized_pnl) {
            Some(p) => p,
            None => return Err(LedgerError::Overflow),
        };
        if self.total_credit_trades == u64::MAX {
            return Err(LedgerError::Overflow);
        }
        self.balance = b;
        self.total_commissions = c;
        self.total_realized_pnl = p;
        self.total_credit_trades = self.total_credit_trades + 1;
        Ok(())
    }

    /// Current exact cash balance.
    pub fn balance(&self) -> (r: Money)
        ensures
            parts(r) == self@.balance,
    {
        self.balance
    }

    /// Total brokerage commissions paid.
    pub fn total_commissions(&self) -> (r: Money)
        ensures
            parts(r) == self@.total_commissions,
    {
        self.total_commissions
    }

    /// Total realized P&L.
    pub fn total_realized_pnl(&self) -> (r: Money)
        ensures
            parts(r) == self@.total_realized_pnl,
    {
        self.total_realized_pnl
    }

    /// Number of opening trades debited.
    pub fn debit_count(&self) -> (r: u64)
        ensures
            r == self@.debit_trades,
    {
        self.total_debit_trades
    }

    /// Number of closing trades credited.
    pub fn credit_count(&self) -> (r: u64)
        ensures
            r == self@.credit_trades,
    {
        self.total_credit_trades
    }

    /// Net return on starting capital as a fraction (`0.12` = 12%):
    /// `(balance − start) / start`; `Ok(None)` when the starting balance is
    /// zero, `Err` when the arithmetic overflows.
    pub fn net_return(&self) -> (r: Result<Option<Money>, LedgerError>)
        ensures
            self@.starting_balance.0 == 0 ==> r == Ok::<Option<Money>, LedgerError>(None),
            self@.starting_balance.0 != 0 ==> match difference_of(self@.balance, self@.starting_balance) {
                Some(d) => match decimal_quotient(d.0, d.1, self@.starting_balance.0, self@.starting_balance.1) {
                    Some(q) => r matches Ok(Some(x)) && parts(x) == q,
                    None => r == Err::<Option<Money>, LedgerError>(LedgerError::Overflow),
                },
                None => r == Err::<Option<Money>, LedgerError>(LedgerError::Overflow),
            },
    {
        if self.starting_balance.is_zero() {
            return Ok(None);
        }
        let d = match sub_money(self.balance, self.starting_balance) {
            Some(d) => d,
            None => return Err(LedgerError::Overflow),
        };
        match div_money(d, self.starting_balance) {
            Some(q) => Ok(Some(q)),
            None => Err(LedgerError::Overflow),
        }
    }
}

/// Law: a refused update changes nothing, and an accepted one touches only
/// the fields it books: a debit never changes realized P&L or the credit
/// count, a credit never changes the debit count, and the starting
/// balance is never changed.
pub proof fn lemma_ledger_updates_are_local(
    l: LedgerView,
    cost: (i128, u32),
    commission: (i128, u32),
    proceeds: (i128, u32),
    pnl: (i128, u32),
)
    ensures
        after_debit(l, cost, commission) matches Some(v) ==> v.total_realized_pnl == l.total_realized_pnl
            && v.credit_trades == l.credit_trades && v.starting_balance == l.starting_balance && v.debit_trades
            == l.debit_trades + 1,
        after_credit(l, proceeds, commission, pnl) matches Some(v) ==> v.debit_trades == l.debit_trades
            && v.starting_balance == l.starting_balance && v.credit_trades == l.credit_trades + 1,
{
}

} // verus!
