//! Pure, side-effect-free order-construction pipeline.
//!
//! ```text
//! Signal -> validate_signal -> check_risk_guards -> size_position
//!        -> build_order -> validate_occ_symbol -> generate_client_order_id
//! ```
//!
//! Every rejection is a distinct, named `OrderPathError` variant.

use crate::alpaca::occ::{parse_occ, spec_parse_occ, OccParts, OccView};
use crate::alpaca::orders::{expiry_in_range, is_order_signal, signal_days, signal_in_range, signal_to_options_order_on, order_result_ok, spec_signal_to_legs_on};
use crate::alpaca::types::OptionsOrderRequest;
use crate::calendar::{date_before, is_date_before, is_valid_date, local_today, utc_today};
use crate::strategies::SignalAction;
use crate::text::{dec, dec_int, is_digit_char, lemma_dec_digits, push_decimal, push_signed_decimal, push_zero_padded, zero_pad};
use vstd::prelude::*;

verus! {

/// Every way the order path can reject a signal before submission.
#[derive(Debug, Clone)]
pub enum OrderPathError {
    /// Step 1: non-actionable signal or confidence below the configured floor.
    SignalRejected(String),
    /// Step 2: a daily risk guard halted new entries.
    RiskHalted(String),
    /// Step 3: requested size is not a valid tradable quantity.
    InvalidSizing(String),
    /// Step 4: the signal could not be converted into an order request.
    BuildOrderFailed(String),
    /// Step 5: an OCC symbol fails structural validation that the broker
    /// would reject server-side.
    OccRejected(String),
}

// ─── Step 1 ──────────────────────────────────────────────────────────────────

pub open spec fn no_action_rejection() -> Seq<char> {
    "NoAction is not actionable"@
}

pub open spec fn close_position_rejection() -> Seq<char> {
    "ClosePosition belongs to manage_open_positions, not the entry order path"@
}

/// The action part of signal evaluation: `NoAction` and `ClosePosition` are
/// not entries.
pub fn validate_signal_action(action: &SignalAction) -> (r: Result<(), OrderPathError>)
    ensures
        match *action {
            SignalAction::NoAction => r matches Err(OrderPathError::SignalRejected(m)) && m@ == no_action_rejection(),
            SignalAction::ClosePosition { .. } => r matches Err(OrderPathError::SignalRejected(m)) && m@
                == close_position_rejection(),
            _ => r is Ok,
        },
{
    match *action {
        SignalAction::NoAction => Err(OrderPathError::SignalRejected(String::from_str("NoAction is not actionable"))),
        SignalAction::ClosePosition { .. } => Err(
            OrderPathError::SignalRejected(
                String::from_str("ClosePosition belongs to manage_open_positions, not the entry order path"),
            ),
        ),
        _ => Ok(()),
    }
}

/// A fraction in basis points written as a decimal with four places
/// (`6000` → `"0.6000"`).
pub open spec fn bp_text(bp: nat) -> Seq<char> {
    dec(bp / 10000) + "."@ + zero_pad(dec(bp % 10000), 4)
}

pub open spec fn low_confidence_rejection(confidence: nat, floor: nat) -> Seq<char> {
    "confidence "@ + bp_text(confidence) + " < floor "@ + bp_text(floor)
}

fn push_bp(out: &mut String, bp: u32)
    ensures
        final(out)@ == old(out)@ + bp_text(bp as nat),
{
    push_decimal(out, (bp / 10000) as u64);
    out.append(".");
    push_zero_padded(out, (bp % 10000) as u64, 4);
}

/// **Step 1 — signal evaluation**, with the strategy's confidence and the
/// configured floor in basis points (`0.6` → `6000`): `Ok` iff the action
/// is actionable and the confidence meets the floor; `SignalRejected`
/// for `NoAction`, `ClosePosition` or a confidence below the floor.
pub fn validate_signal(action: &SignalAction, confidence: u32, min_confidence: u32) -> (r: Result<
    (),
    OrderPathError,
>)
    ensures
        match *action {
            SignalAction::NoAction => r matches Err(OrderPathError::SignalRejected(m)) && m@ == no_action_rejection(),
            SignalAction::ClosePosition { .. } => r matches Err(OrderPathError::SignalRejected(m)) && m@
                == close_position_rejection(),
            _ => if confidence < min_confidence {
                r matches Err(OrderPathError::SignalRejected(m)) && m@ == low_confidence_rejection(
                    confidence as nat,
                    min_confidence as nat,
                )
            } else {
                r is Ok
            },
        },
{
    match validate_signal_action(action) {
        Err(e) => Err(e),
        Ok(()) => {
            if confidence < min_confidence {
                let mut m = String::from_str("confidence ");
                push_bp(&mut m, confidence);
                m.append(" < floor ");
                push_bp(&mut m, min_confidence);
                Err(OrderPathError::SignalRejected(m))
            } else {
                Ok(())
            }
        },
    }
}

// ─── Step 3 ──────────────────────────────────────────────────────────────────

pub open spec fn sizing_message(q: int) -> Seq<char> {
    "suggested size "@ + dec_int(q) + " must be >= 1"@
}

pub open spec fn oversize_message(q: int) -> Seq<char> {
    "suggested size "@ + dec_int(q) + " exceeds the largest order quantity 4294967295"@
}

/// **Step 3 — sizing.** `Ok(qty)` for a suggested size from one up to
/// `u32::MAX`; `InvalidSizing` for zero or negative sizes and for sizes
/// that do not fit an order quantity, never silently clamped.
pub fn size_position(suggested_qty: i64) -> (r: Result<u32, OrderPathError>)
    ensures
        1 <= suggested_qty <= u32::MAX ==> r == Ok::<u32, OrderPathError>(suggested_qty as u32),
        suggested_qty < 1 ==> (r matches Err(OrderPathError::InvalidSizing(m)) && m@ == sizing_message(
            suggested_qty as int,
        )),
        suggested_qty > u32::MAX ==> (r matches Err(OrderPathError::InvalidSizing(m)) && m@ == oversize_message(
            suggested_qty as int,
        )),
{
    if suggested_qty < 1 {
        let mut m = String::from_str("suggested size ");
        push_signed_decimal(&mut m, suggested_qty);
        m.append(" must be >= 1");
        return Err(OrderPathError::InvalidSizing(m));
    }
    if suggested_qty > u32::MAX as i64 {
        let mut m = String::from_str("suggested size ");
        push_signed_decimal(&mut m, suggested_qty);
        m.append(" exceeds the largest order quantity 4294967295");
        return Err(OrderPathError::InvalidSizing(m));
    }
    Ok(suggested_qty as u32)
}

// ─── Step 4 ──────────────────────────────────────────────────────────────────

/// **Step 4 — build order**, with the expiry counted from `today`.
pub fn build_order_on(
    signal: &SignalAction,
    underlying: &str,
    qty: u32,
    limit_price_thousandths: Option<i64>,
    today: (i32, u32, u32),
) -> (r: Result<OptionsOrderRequest, OrderPathError>)
    requires
        signal_in_range(*signal),
    ensures
        match spec_signal_to_legs_on(*signal, underlying@, today) {
            Ok(_) => r matches Ok(req) && order_result_ok(
                Ok(req),
                *signal,
                underlying@,
                qty,
                limit_price_thousandths,
                today,
            ),
            Err(m) => r matches Err(OrderPathError::BuildOrderFailed(e)) && e@ == m,
        },
        is_order_signal(*signal) && expiry_in_range(today, signal_days(*signal) as int) ==> r is Ok,
{
    match signal_to_options_order_on(signal, underlying, qty, limit_price_thousandths, today) {
        Ok(req) => Ok(req),
        Err(m) => Err(OrderPathError::BuildOrderFailed(m)),
    }
}

/// **Step 4 — build order**: one leg for single-leg strategies, N legs for
/// multi-leg strategies; `BuildOrderFailed` for signals with no options
/// representation.
pub fn build_order(
    signal: &SignalAction,
    underlying: &str,
    qty: u32,
    limit_price_thousandths: Option<i64>,
) -> (r: Result<OptionsOrderRequest, OrderPathError>)
    requires
        signal_in_range(*signal),
    ensures
        exists|today: (i32, u32, u32)|
            #![trigger is_valid_date(today.0 as int, today.1 as int, today.2 as int)]
            is_valid_date(today.0 as int, today.1 as int, today.2 as int) && match spec_signal_to_legs_on(
                *signal,
                underlying@,
                today,
            ) {
                Ok(_) => r matches Ok(req) && order_result_ok(
                    Ok(req),
                    *signal,
                    underlying@,
                    qty,
                    limit_price_thousandths,
                    today,
                ),
                Err(m) => r matches Err(OrderPathError::BuildOrderFailed(e)) && e@ == m,
            } && (is_order_signal(*signal) && expiry_in_range(today, signal_days(*signal) as int) ==> r is Ok),
{
    let today = local_today();
    build_order_on(signal, underlying, qty, limit_price_thousandths, today)
}

// ─── Step 5 ──────────────────────────────────────────────────────────────────

pub open spec fn is_ascii_alpha(c: char) -> bool {
    (65 <= c as u32 <= 90) || (97 <= c as u32 <= 122)
}

pub open spec fn root_acceptable(root: Seq<char>) -> bool {
    1 <= root.len() <= 6 && forall|i: int| 0 <= i < root.len() ==> is_ascii_alpha(#[trigger] root[i])
}

/// Outcome of OCC validation against `today`: the parsed symbol or the
/// rejection message.
pub open spec fn spec_validate_occ(occ: Seq<char>, today: (i32, u32, u32)) -> Result<OccView, Seq<char>> {
    match spec_parse_occ(occ) {
        None => Err(occ + ": does not parse as OCC"@),
        Some(p) => if !root_acceptable(p.root) {
            Err(occ + ": root '"@ + p.root + "' is not 1-6 alphabetic chars"@)
        } else if p.strike_thousandths == 0 {
            Err(occ + ": strike 0 must be > 0"@)
        } else if date_before((p.year, p.month, p.day), (today.0 as int, today.1 as int, today.2 as int)) {
            Err(occ + ": expiry "@ + p.expiry_str + " is in the past"@)
        } else {
            Ok(p)
        },
    }
}

pub open spec fn validated_as(r: Result<OccParts, OrderPathError>, v: Result<OccView, Seq<char>>) -> bool {
    match v {
        Ok(p) => r matches Ok(q) && q@ == p,
        Err(m) => r matches Err(OrderPathError::OccRejected(e)) && e@ == m,
    }
}

fn root_is_acceptable(root: &String) -> (b: bool)
    ensures
        b == root_acceptable(root@),
{
    let s = root.as_str();
    let n = s.unicode_len();
    if n < 1 || n > 6 {
        return false;
    }
    let mut i: usize = 0;
    while i < n
        invariant
            n == s@.len(),
            s@ == root@,
            i <= n,
            forall|k: int| 0 <= k < i ==> is_ascii_alpha(#[trigger] s@[k]),
        decreases n - i,
    {
        let c = s.get_char(i) as u32;
        if !((65 <= c && c <= 90) || (97 <= c && c <= 122)) {
            return false;
        }
        i = i + 1;
    }
    true
}

/// **Step 5 — OCC validation** against the date `today`: `Ok` only for
/// symbols that parse, have a 1–6 letter root, a positive strike and an
/// expiry that is not before `today`.
pub fn validate_occ_symbol_on(occ: &str, today: (i32, u32, u32)) -> (r: Result<OccParts, OrderPathError>)
    ensures
        validated_as(r, spec_validate_occ(occ@, today)),
{
    let parts = match parse_occ(occ) {
        Some(p) => p,
        None => {
            let mut m = String::from_str(occ);
            m.append(": does not parse as OCC");
            return Err(OrderPathError::OccRejected(m));
        },
    };
    if !root_is_acceptable(&parts.root) {
        let mut m = String::from_str(occ);
        m.append(": root '");
        m.append(parts.root.as_str());
        m.append("' is not 1-6 alphabetic chars");
        return Err(OrderPathError::OccRejected(m));
    }
    if parts.strike_thousandths == 0 {
        let mut m = String::from_str(occ);
        m.append(": strike 0 must be > 0");
        return Err(OrderPathError::OccRejected(m));
    }
    if is_date_before((parts.year, parts.month, parts.day), today) {
        let mut m = String::from_str(occ);
        m.append(": expiry ");
        m.append(parts.expiry_str.as_str());
        m.append(" is in the past");
        return Err(OrderPathError::OccRejected(m));
    }
    Ok(parts)
}

/// Law: OCC validation accepts a symbol only when its expiry day is today
/// or later, compared by year, then month, then day; and a symbol that
/// otherwise passes but expires on any earlier day is rejected as being in
/// the past. An accepted symbol is returned exactly as it parses, with a
/// 1–6 letter root and a positive strike.
pub proof fn lemma_validate_occ_expiry(occ: Seq<char>, today: (i32, u32, u32))
    ensures
        spec_validate_occ(occ, today) matches Ok(p) ==> {
            &&& spec_parse_occ(occ) == Some(p)
            &&& 1 <= p.root.len() <= 6
            &&& p.strike_thousandths > 0
            &&& !(p.year < today.0 || (p.year == today.0 && p.month < today.1) || (p.year == today.0
                && p.month == today.1 && p.day < today.2))
        },
        spec_parse_occ(occ) matches Some(p) ==> (root_acceptable(p.root) && p.strike_thousandths > 0 && (p.year
            < today.0 || (p.year == today.0 && p.month < today.1) || (p.year == today.0 && p.month == today.1
            && p.day < today.2)) ==> spec_validate_occ(occ, today) == Err::<OccView, Seq<char>>(
            occ + ": expiry "@ + p.expiry_str + " is in the past"@,
        )),
{
}

/// **Step 5 — OCC validation** against today's UTC date.
pub fn validate_occ_symbol(occ: &str) -> (r: Result<OccParts, OrderPathError>)
    ensures
        exists|today: (i32, u32, u32)|
            #![trigger is_valid_date(today.0 as int, today.1 as int, today.2 as int)]
            is_valid_date(today.0 as int, today.1 as int, today.2 as int) && validated_as(
                r,
                spec_validate_occ(occ@, today),
            ),
{
    let today = utc_today();
    validate_occ_symbol_on(occ, today)
}

// ─── Step 6 ──────────────────────────────────────────────────────────────────

/// `chrono::Utc::now()` as milliseconds since the Unix epoch and the
/// nanoseconds within the current second.
/// Claimed: nothing beyond the types (it reads the clock).
#[verifier::external_body]
fn unix_time_now() -> (r: (i64, u32)) {
    let now = chrono::Utc::now();
    (now.timestamp_millis(), now.timestamp_subsec_nanos())
}

/// The client order id `"db-{prefix}-{millis}-{tail}"`, where `tail` is
/// the nanoseconds of a clock reading or a per-generator sequence number.
pub open spec fn client_order_id(prefix: Seq<char>, millis: int, tail: nat) -> Seq<char> {
    "db-"@ + prefix + "-"@ + dec_int(millis) + "-"@ + dec(tail)
}

/// The client order id for `prefix` at `millis` with the given tail.
pub fn client_order_id_at(prefix: &str, millis: i64, tail: u64) -> (r: String)
    ensures
        r@ == client_order_id(prefix@, millis as int, tail as nat),
{
    let mut id = String::from_str("db-");
    id.append(prefix);
    id.append("-");
    push_signed_decimal(&mut id, millis);
    id.append("-");
    push_decimal(&mut id, tail);
    proof {
        assert(id@ =~= client_order_id(prefix@, millis as int, tail as nat));
    }
    id
}

/// **Step 6 — client_order_id**: `"db-{prefix}-{millis}-{nanos}"` from a
/// reading of the clock (milliseconds since the epoch, nanoseconds within
/// the second), safe to log verbatim for replay/audit. For ids that are
/// distinct by construction, draw them from a [`ClientOrderIds`].
pub fn generate_client_order_id(prefix: &str) -> (r: String)
    ensures
        exists|millis: i64, nanos: u32| r@ == client_order_id(prefix@, millis as int, nanos as nat),
{
    let (millis, nanos) = unix_time_now();
    client_order_id_at(prefix, millis, nanos as u64)
}

/// A source of client order ids: a monotonic counter plus a millisecond
/// timestamp, so no two ids it hands out are equal.
pub struct ClientOrderIds {
    next: u64,
}

impl ClientOrderIds {
    /// The sequence number the next id will carry.
    pub closed spec fn counter(&self) -> u64 {
        self.next
    }

    /// A generator whose first id carries sequence number 0.
    pub fn new() -> (g: ClientOrderIds)
        ensures
            g.counter() == 0,
    {
        ClientOrderIds { next: 0 }
    }

    /// Number of ids handed out so far.
    pub fn issued(&self) -> (r: u64)
        ensures
            r == self.counter(),
    {
        self.next
    }

    /// The next id for `prefix` at the timestamp `millis`; the sequence
    /// number advances by one.
    pub fn next_id_at(&mut self, prefix: &str, millis: i64) -> (r: String)
        requires
            old(self).counter() < u64::MAX,
        ensures
            r@ == client_order_id(prefix@, millis as int, old(self).counter() as nat),
            final(self).counter() == old(self).counter() + 1,
    {
        let id = client_order_id_at(prefix, millis, self.next);
        self.next = self.next + 1;
        id
    }

    /// The next id for `prefix`, stamped with the current time in
    /// milliseconds; the sequence number advances by one.
    pub fn next_id(&mut self, prefix: &str) -> (r: String)
        requires
            old(self).counter() < u64::MAX,
        ensures
            exists|millis: i64| r@ == client_order_id(prefix@, millis as int, old(self).counter() as nat),
            final(self).counter() == old(self).counter() + 1,
    {
        let (millis, _) = unix_time_now();
        self.next_id_at(prefix, millis)
    }
}

/// Law: ids for one prefix with different tails differ, whatever their
/// timestamps; so the ids a [`ClientOrderIds`] hands out on different
/// calls (different sequence numbers) are pairwise distinct.
pub proof fn lemma_client_order_ids_distinct(prefix: Seq<char>, m1: int, t1: nat, m2: int, t2: nat)
    requires
        t1 != t2,
    ensures
        client_order_id(prefix, m1, t1) != client_order_id(prefix, m2, t2),
{
    let p = "db-"@ + prefix + "-"@;
    let x1 = dec_int(m1) + "-"@ + dec(t1);
    let x2 = dec_int(m2) + "-"@ + dec(t2);
    assert(client_order_id(prefix, m1, t1) =~= p + x1);
    assert(client_order_id(prefix, m2, t2) =~= p + x2);
    if client_order_id(prefix, m1, t1) == client_order_id(prefix, m2, t2) {
        assert(x1 =~= (p + x1).subrange(p.len() as int, (p + x1).len() as int));
        assert(x2 =~= (p + x2).subrange(p.len() as int, (p + x2).len() as int));
        assert(x1 == x2);
        lemma_tail_determined(dec_int(m1), t1, dec_int(m2), t2);
    }
}

proof fn lemma_tail_determined(a1: Seq<char>, t1: nat, a2: Seq<char>, t2: nat)
    requires
        a1 + "-"@ + dec(t1) == a2 + "-"@ + dec(t2),
    ensures
        t1 == t2,
{
    reveal_strlit("-");
    let d1 = dec(t1);
    let d2 = dec(t2);
    let x = a1 + "-"@ + d1;
    lemma_dec_digits(t1);
    lemma_dec_digits(t2);
    let n = x.len();
    assert(n == a2.len() + 1 + d2.len());
    if d1.len() < d2.len() {
        let k = n - d1.len() - 1;
        assert(x[k] == '-');
        assert((a2 + "-"@ + d2)[k] == d2[k - (n - d2.len())]);
        assert(is_digit_char(d2[k - (n - d2.len())]));
    } else if d2.len() < d1.len() {
        let k = n - d2.len() - 1;
        assert((a2 + "-"@ + d2)[k] == '-');
        assert(x[k] == d1[k - (n - d1.len())]);
        assert(is_digit_char(d1[k - (n - d1.len())]));
    } else {
        assert(d1 =~= x.subrange(n - d1.len(), n as int));
        assert(d2 =~= (a2 + "-"@ + d2).subrange(n - d2.len(), n as int));
    }
}

} // verus!
