//! Turning strategy signals into Alpaca options orders.

use crate::alpaca::occ::{built_expiry_str, is_ascii_space, lemma_occ_symbol_round_trip, occ_symbol, spec_occ_symbol, spec_parse_occ, OccView};
use crate::alpaca::types::{OptionsLeg, OptionsOrderRequest, OrderSide, OrderType, TimeInForce};
use crate::calendar::{add_days, date_plus_days, day_number, day_number_of, is_valid_date, local_today, weekday_from_monday, weekday_number};
use crate::strategies::SignalAction;
use crate::text::{dec, push_decimal};
use vstd::prelude::*;

verus! {

// ─── Expiry dates ────────────────────────────────────────────────────────────

/// Days to add to a day with weekday number `dow` (Monday = 0) to reach the
/// same or the next Friday.
pub open spec fn friday_offset(dow: int) -> int {
    if dow <= 4 {
        4 - dow
    } else {
        11 - dow
    }
}

/// `(year % 100) as u32` with Rust's truncating remainder.
pub open spec fn two_digit_year(y: int) -> u32 {
    if y >= 0 {
        (y % 100) as u32
    } else if (-y) % 100 == 0 {
        0
    } else {
        (4294967296 - (-y) % 100) as u32
    }
}

/// Expiry `(yy, mm, dd)` for `dte` days after `today`, rounded forward to a
/// Friday; `None` when the date arithmetic leaves the representable range.
pub open spec fn spec_expiry_on(today: (i32, u32, u32), dte: u64) -> Option<(u32, u32, u32)> {
    match date_plus_days(today.0, today.1, today.2, dte) {
        None => None,
        Some(t) => match weekday_number(t.0, t.1, t.2) {
            None => None,
            Some(w) => match date_plus_days(t.0, t.1, t.2, friday_offset(w as int) as u64) {
                None => None,
                Some(e) => Some((two_digit_year(e.0 as int), e.1, e.2)),
            },
        },
    }
}

/// `today` is a valid date and the Friday on or after `today + dte` is
/// still within the representable calendar.
pub open spec fn expiry_in_range(today: (i32, u32, u32), dte: int) -> bool {
    &&& is_valid_date(today.0 as int, today.1 as int, today.2 as int)
    &&& day_number_of(today) + dte + 6 <= day_number(262142, 12, 31)
}

/// `e` is a valid date, a Friday, and among the seven days starting at day
/// number `first`.
pub open spec fn is_friday_on_or_after(e: (i32, u32, u32), first: int) -> bool {
    &&& is_valid_date(e.0 as int, e.1 as int, e.2 as int)
    &&& (day_number_of(e) - 1) % 7 == 4
    &&& first <= day_number_of(e) <= first + 6
}

fn year_two_digits(y: i32) -> (r: u32)
    ensures
        r == two_digit_year(y as int),
{
    if y >= 0 {
        (y as u32) % 100
    } else {
        let m = ((-(y as i64)) % 100) as u32;
        if m == 0 {
            0
        } else {
            4294967296u64.wrapping_sub(m as u64) as u32
        }
    }
}

fn days_to_friday(dow: u32) -> (r: u64)
    requires
        dow < 7,
    ensures
        r == friday_offset(dow as int),
{
    if dow <= 4 {
        (4 - dow) as u64
    } else {
        (11 - dow) as u64
    }
}

/// The OCC expiry components `(two-digit year, month, day)` for `dte` days
/// after `today`, rounded forward to the nearest Friday (standard equity
/// options expiry day). `None` only when the date would leave the range of
/// representable dates.
pub fn expiry_from_dte_on(today: (i32, u32, u32), dte: u64) -> (r: Option<(u32, u32, u32)>)
    ensures
        r == spec_expiry_on(today, dte),
        r matches Some(x) ==> exists|e: (i32, u32, u32)|
            #![trigger day_number_of(e)]
            is_friday_on_or_after(e, day_number_of(today) + dte) && x == (two_digit_year(e.0 as int), e.1, e.2),
        expiry_in_range(today, dte as int) ==> r is Some,
{
    let target = match add_days(today, dte) {
        Some(t) => t,
        None => return None,
    };
    let dow = match weekday_from_monday(target) {
        Some(w) => w,
        None => return None,
    };
    let expiry = match add_days(target, days_to_friday(dow)) {
        Some(e) => e,
        None => return None,
    };
    assert(is_friday_on_or_after(expiry, day_number_of(today) + dte));
    Some((year_two_digits(expiry.0), expiry.1, expiry.2))
}

/// [`expiry_from_dte_on`] for today's local date.
pub fn expiry_from_dte(dte: usize) -> (r: Option<(u32, u32, u32)>)
    ensures
        exists|today: (i32, u32, u32)|
            #![trigger is_valid_date(today.0 as int, today.1 as int, today.2 as int)]
            is_valid_date(today.0 as int, today.1 as int, today.2 as int) && r == spec_expiry_on(
                today,
                dte as u64,
            ) && (expiry_in_range(today, dte as int) ==> r is Some) && (r matches Some(x) ==> exists|e: (
                i32,
                u32,
                u32,
            )|
                #![trigger day_number_of(e)]
                is_friday_on_or_after(e, day_number_of(today) + dte) && x == (
                    two_digit_year(e.0 as int),
                    e.1,
                    e.2,
                )),
{
    let today = local_today();
    expiry_from_dte_on(today, dte as u64)
}

// ─── Legs ────────────────────────────────────────────────────────────────────

/// One order leg: OCC symbol, side and position intent.
pub struct LegSpec {
    pub symbol: Seq<char>,
    pub side: OrderSide,
    pub intent: Seq<char>,
}

pub open spec fn open_intent(side: OrderSide) -> Seq<char> {
    match side {
        OrderSide::Buy => "buy_to_open"@,
        OrderSide::Sell => "sell_to_open"@,
    }
}

pub open spec fn leg_spec(u: Seq<char>, e: (u32, u32, u32), is_call: bool, strike: u64, side: OrderSide) -> LegSpec {
    LegSpec {
        symbol: spec_occ_symbol(u, e.0 as nat, e.1 as nat, e.2 as nat, is_call, strike as nat),
        side,
        intent: open_intent(side),
    }
}

pub open spec fn leg_view(l: (String, OrderSide, &str)) -> LegSpec {
    LegSpec { symbol: l.0@, side: l.1, intent: l.2@ }
}

/// Strike of the bought put wing of an iron butterfly: `center - width`,
/// but never below $0.01.
pub open spec fn lower_wing(center: u64, width: u64) -> u64 {
    if center >= width + 10 {
        (center - width) as u64
    } else {
        10
    }
}

/// The signal has an options-order representation.
pub open spec fn is_order_signal(signal: SignalAction) -> bool {
    !(signal is NoAction) && !(signal is ClosePosition)
}

/// The signal's strikes stay within `u64` when combined (iron butterfly wing).
pub open spec fn signal_in_range(signal: SignalAction) -> bool {
    match signal {
        SignalAction::IronButterfly { center_strike, wing_width, .. } => center_strike + wing_width <= u64::MAX,
        _ => true,
    }
}

/// Days to expiry carried by an order signal.
pub open spec fn signal_days(signal: SignalAction) -> usize {
    match signal {
        SignalAction::BuyCall { days_to_expiry, .. } => days_to_expiry,
        SignalAction::BuyPut { days_to_expiry, .. } => days_to_expiry,
        SignalAction::SellCall { days_to_expiry, .. } => days_to_expiry,
        SignalAction::SellPut { days_to_expiry, .. } => days_to_expiry,
        SignalAction::CreditCallSpread { days_to_expiry, .. } => days_to_expiry,
        SignalAction::CreditPutSpread { days_to_expiry, .. } => days_to_expiry,
        SignalAction::IronCondor { days_to_expiry, .. } => days_to_expiry,
        SignalAction::CoveredCall { days_to_expiry, .. } => days_to_expiry,
        SignalAction::SellStraddle { days_to_expiry, .. } => days_to_expiry,
        SignalAction::BuyStraddle { days_to_expiry, .. } => days_to_expiry,
        SignalAction::IronButterfly { days_to_expiry, .. } => days_to_expiry,
        SignalAction::CashSecuredPut { days_to_expiry, .. } => days_to_expiry,
        _ => 0,
    }
}

/// The legs of an order signal for the expiry `e`, in order.
pub open spec fn spec_legs_at(signal: SignalAction, u: Seq<char>, e: (u32, u32, u32)) -> Seq<LegSpec> {
    match signal {
        SignalAction::BuyCall { strike, .. } => seq![leg_spec(u, e, true, strike, OrderSide::Buy)],
        SignalAction::BuyPut { strike, .. } => seq![leg_spec(u, e, false, strike, OrderSide::Buy)],
        SignalAction::SellCall { strike, .. } => seq![leg_spec(u, e, true, strike, OrderSide::Sell)],
        SignalAction::SellPut { strike, .. } => seq![leg_spec(u, e, false, strike, OrderSide::Sell)],
        SignalAction::CreditCallSpread { sell_strike, buy_strike, .. } => seq![
            leg_spec(u, e, true, sell_strike, OrderSide::Sell),
            leg_spec(u, e, true, buy_strike, OrderSide::Buy),
        ],
        SignalAction::CreditPutSpread { sell_strike, buy_strike, .. } => seq![
            leg_spec(u, e, false, sell_strike, OrderSide::Sell),
            leg_spec(u, e, false, buy_strike, OrderSide::Buy),
        ],
        SignalAction::IronCondor {
            sell_call_strike,
            buy_call_strike,
            sell_put_strike,
            buy_put_strike,
            ..
        } => seq![
            leg_spec(u, e, true, sell_call_strike, OrderSide::Sell),
            leg_spec(u, e, true, buy_call_strike, OrderSide::Buy),
            leg_spec(u, e, false, sell_put_strike, OrderSide::Sell),
            leg_spec(u, e, false, buy_put_strike, OrderSide::Buy),
        ],
        SignalAction::CoveredCall { sell_strike, .. } => seq![leg_spec(u, e, true, sell_strike, OrderSide::Sell)],
        SignalAction::SellStraddle { strike, .. } => seq![
            leg_spec(u, e, true, strike, OrderSide::Sell),
            leg_spec(u, e, false, strike, OrderSide::Sell),
        ],
        SignalAction::BuyStraddle { strike, .. } => seq![
            leg_spec(u, e, true, strike, OrderSide::Buy),
            leg_spec(u, e, false, strike, OrderSide::Buy),
        ],
        SignalAction::IronButterfly { center_strike, wing_width, .. } => seq![
            leg_spec(u, e, true, center_strike, OrderSide::Sell),
            leg_spec(u, e, true, (center_strike + wing_width) as u64, OrderSide::Buy),
            leg_spec(u, e, false, center_strike, OrderSide::Sell),
            leg_spec(u, e, false, lower_wing(center_strike, wing_width), OrderSide::Buy),
        ],
        SignalAction::CashSecuredPut { strike, .. } => seq![leg_spec(u, e, false, strike, OrderSide::Sell)],
        _ => Seq::empty(),
    }
}

pub open spec fn close_position_message(position_id: usize) -> Seq<char> {
    "ClosePosition("@ + dec(position_id as nat) + ") is not an options order signal"@
}

pub open spec fn no_action_message() -> Seq<char> {
    "NoAction cannot be converted to an order"@
}

pub open spec fn expiry_out_of_range_message() -> Seq<char> {
    "expiry date is out of range"@
}

/// What [`signal_to_legs_on`] yields: the legs, or the message for a signal
/// without an options representation or an unrepresentable expiry.
pub open spec fn spec_signal_to_legs_on(signal: SignalAction, u: Seq<char>, today: (i32, u32, u32)) -> Result<
    Seq<LegSpec>,
    Seq<char>,
> {
    match signal {
        SignalAction::ClosePosition { position_id } => Err(close_position_message(position_id)),
        SignalAction::NoAction => Err(no_action_message()),
        _ => match spec_expiry_on(today, signal_days(signal) as u64) {
            None => Err(expiry_out_of_range_message()),
            Some(e) => Ok(spec_legs_at(signal, u, e)),
        },
    }
}

pub open spec fn legs_result_view(r: Result<Vec<(String, OrderSide, &str)>, String>) -> Result<Seq<LegSpec>, Seq<char>> {
    match r {
        Ok(v) => Ok(v@.map_values(|l: (String, OrderSide, &str)| leg_view(l))),
        Err(m) => Err(m@),
    }
}

fn leg(
    u: &str,
    e: (u32, u32, u32),
    is_call: bool,
    strike: u64,
    side: OrderSide,
) -> (r: (String, OrderSide, &'static str))
    ensures
        leg_view(r) == leg_spec(u@, e, is_call, strike, side),
{
    let intent = match side {
        OrderSide::Buy => "buy_to_open",
        OrderSide::Sell => "sell_to_open",
    };
    (occ_symbol(u, e.0, e.1, e.2, is_call, strike), side, intent)
}

/// Legs of an order signal for a known expiry `(yy, mm, dd)`.
pub fn signal_to_legs_at(signal: &SignalAction, underlying: &str, expiry: (u32, u32, u32)) -> (r: Vec<
    (String, OrderSide, &'static str),
>)
    requires
        is_order_signal(*signal),
        signal_in_range(*signal),
    ensures
        r@.map_values(|l: (String, OrderSide, &str)| leg_view(l)) == spec_legs_at(*signal, underlying@, expiry),
{
    let u = underlying;
    let e = expiry;
    let r = match *signal {
        SignalAction::BuyCall { strike, .. } => vec![leg(u, e, true, strike, OrderSide::Buy)],
        SignalAction::BuyPut { strike, .. } => vec![leg(u, e, false, strike, OrderSide::Buy)],
        SignalAction::SellCall { strike, .. } => vec![leg(u, e, true, strike, OrderSide::Sell)],
        SignalAction::SellPut { strike, .. } => vec![leg(u, e, false, strike, OrderSide::Sell)],
        SignalAction::CreditCallSpread { sell_strike, buy_strike, .. } => vec![
            leg(u, e, true, sell_strike, OrderSide::Sell),
            leg(u, e, true, buy_strike, OrderSide::Buy),
        ],
        SignalAction::CreditPutSpread { sell_strike, buy_strike, .. } => vec![
            leg(u, e, false, sell_strike, OrderSide::Sell),
            leg(u, e, false, buy_strike, OrderSide::Buy),
        ],
        SignalAction::IronCondor {
            sell_call_strike,
            buy_call_strike,
            sell_put_strike,
            buy_put_strike,
            ..
        } => vec![
            leg(u, e, true, sell_call_strike, OrderSide::Sell),
            leg(u, e, true, buy_call_strike, OrderSide::Buy),
            leg(u, e, false, sell_put_strike, OrderSide::Sell),
            leg(u, e, false, buy_put_strike, OrderSide::Buy),
        ],
        SignalAction::CoveredCall { sell_strike, .. } => vec![leg(u, e, true, sell_strike, OrderSide::Sell)],
        SignalAction::SellStraddle { strike, .. } => vec![
            leg(u, e, true, strike, OrderSide::Sell),
            leg(u, e, false, strike, OrderSide::Sell),
        ],
        SignalAction::BuyStraddle { strike, .. } => vec![
            leg(u, e, true, strike, OrderSide::Buy),
            leg(u, e, false, strike, OrderSide::Buy),
        ],
        SignalAction::IronButterfly { center_strike, wing_width, .. } => {
            let low = if center_strike >= wing_width && center_strike - wing_width >= 10 {
                center_strike - wing_width
            } else {
                10
            };
            vec![
                leg(u, e, true, center_strike, OrderSide::Sell),
                leg(u, e, true, center_strike + wing_width, OrderSide::Buy),
                leg(u, e, false, center_strike, OrderSide::Sell),
                leg(u, e, false, low, OrderSide::Buy),
            ]
        },
        SignalAction::CashSecuredPut { strike, .. } => vec![leg(u, e, false, strike, OrderSide::Sell)],
        _ => Vec::new(),
    };
    proof {
        assert(r@.map_values(|l: (String, OrderSide, &str)| leg_view(l)) =~= spec_legs_at(*signal, underlying@, expiry));
    }
    r
}

/// Legs of a signal, with the expiry counted from `today`.
pub fn signal_to_legs_on(signal: &SignalAction, underlying: &str, today: (i32, u32, u32)) -> (r: Result<
    Vec<(String, OrderSide, &'static str)>,
    String,
>)
    requires
        signal_in_range(*signal),
    ensures
        legs_result_view(r) == spec_signal_to_legs_on(*signal, underlying@, today),
        is_order_signal(*signal) && expiry_in_range(today, signal_days(*signal) as int) ==> r is Ok,
{
    match *signal {
        SignalAction::ClosePosition { position_id } => {
            let mut m = String::from_str("ClosePosition(");
            push_decimal(&mut m, position_id as u64);
            m.append(") is not an options order signal");
            Err(m)
        },
        SignalAction::NoAction => Err(String::from_str("NoAction cannot be converted to an order")),
        _ => {
            let days = days_of(signal);
            match expiry_from_dte_on(today, days as u64) {
                None => Err(String::from_str("expiry date is out of range")),
                Some(e) => Ok(signal_to_legs_at(signal, underlying, e)),
            }
        },
    }
}

fn days_of(signal: &SignalAction) -> (r: usize)
    ensures
        r == signal_days(*signal),
{
    match *signal {
        SignalAction::BuyCall { days_to_expiry, .. } => days_to_expiry,
        SignalAction::BuyPut { days_to_expiry, .. } => days_to_expiry,
        SignalAction::SellCall { days_to_expiry, .. } => days_to_expiry,
        SignalAction::SellPut { days_to_expiry, .. } => days_to_expiry,
        SignalAction::CreditCallSpread { days_to_expiry, .. } => days_to_expiry,
        SignalAction::CreditPutSpread { days_to_expiry, .. } => days_to_expiry,
        SignalAction::IronCondor { days_to_expiry, .. } => days_to_expiry,
        SignalAction::CoveredCall { days_to_expiry, .. } => days_to_expiry,
        SignalAction::SellStraddle { days_to_expiry, .. } => days_to_expiry,
        SignalAction::BuyStraddle { days_to_expiry, .. } => days_to_expiry,
        SignalAction::IronButterfly { days_to_expiry, .. } => days_to_expiry,
        SignalAction::CashSecuredPut { days_to_expiry, .. } => days_to_expiry,
        _ => 0,
    }
}

/// Legs of a signal, with the expiry counted from today's local date.
pub fn signal_to_legs(signal: &SignalAction, underlying: &str) -> (r: Result<
    Vec<(String, OrderSide, &'static str)>,
    String,
>)
    requires
        signal_in_range(*signal),
    ensures
        exists|today: (i32, u32, u32)|
            #![trigger is_valid_date(today.0 as int, today.1 as int, today.2 as int)]
            is_valid_date(today.0 as int, today.1 as int, today.2 as int) && legs_result_view(r)
                == spec_signal_to_legs_on(*signal, underlying@, today) && (is_order_signal(*signal)
                && expiry_in_range(today, signal_days(*signal) as int) ==> r is Ok),
{
    let today = local_today();
    signal_to_legs_on(signal, underlying, today)
}

// ─── Order requests ──────────────────────────────────────────────────────────

/// `req` is the options order for `legs` of `contracts` units at the limit
/// price `limit` (thousandths of a dollar; `None` for a market order): a
/// single leg fills the single-leg fields with `qty = contracts`; several
/// legs form one unit (`qty = 1`) of an `mleg` order whose every leg carries
/// the contract count as its `ratio_qty`.
pub open spec fn is_order_for(
    req: OptionsOrderRequest,
    legs: Seq<LegSpec>,
    contracts: u32,
    limit: Option<i64>,
) -> bool {
    &&& req.order_type == (if limit is Some { OrderType::Limit } else { OrderType::Market })
    &&& req.time_in_force == TimeInForce::Day
    &&& req.limit_price_thousandths == limit
    &&& req.client_order_id is None
    &&& if legs.len() == 1 {
        &&& req.qty matches Some(q) && q@ == dec(contracts as nat)
        &&& req.symbol matches Some(s) && s@ == legs[0].symbol
        &&& req.side == Some(legs[0].side)
        &&& req.position_intent matches Some(p) && p@ == legs[0].intent
        &&& req.order_class is None
        &&& req.legs is None
    } else {
        &&& req.symbol is None
        &&& req.side is None
        &&& req.position_intent is None
        &&& req.qty matches Some(q) && q@ == "1"@
        &&& req.order_class matches Some(c) && c@ == "mleg"@
        &&& req.legs matches Some(v) && v.len() == legs.len() && forall|i: int|
            0 <= i < v.len() ==> {
                &&& (#[trigger] v[i]).symbol@ == legs[i].symbol
                &&& v[i].side == legs[i].side
                &&& v[i].position_intent@ == legs[i].intent
                &&& v[i].ratio_qty == contracts
            }
    }
}

/// What [`signal_to_options_order_on`] yields.
pub open spec fn order_result_ok(
    r: Result<OptionsOrderRequest, String>,
    signal: SignalAction,
    u: Seq<char>,
    contracts: u32,
    limit: Option<i64>,
    today: (i32, u32, u32),
) -> bool {
    match spec_signal_to_legs_on(signal, u, today) {
        Ok(legs) => r matches Ok(req) && is_order_for(req, legs, contracts, limit),
        Err(m) => r matches Err(e) && e@ == m,
    }
}

fn build_request(
    legs: Vec<(String, OrderSide, &'static str)>,
    contracts: u32,
    limit_price_thousandths: Option<i64>,
) -> (req: OptionsOrderRequest)
    requires
        legs.len() >= 1,
    ensures
        is_order_for(
            req,
            legs@.map_values(|l: (String, OrderSide, &str)| leg_view(l)),
            contracts,
            limit_price_thousandths,
        ),
{
    let ghost specs = legs@.map_values(|l: (String, OrderSide, &str)| leg_view(l));
    let mut qty = String::new();
    push_decimal(&mut qty, contracts as u64);
    proof {
        assert(qty@ =~= dec(contracts as nat));
    }
    let order_type = match limit_price_thousandths {
        Some(_) => OrderType::Limit,
        None => OrderType::Market,
    };
    if legs.len() == 1 {
        let mut legs = legs;
        let (symbol, side, intent) = legs.remove(0);
        OptionsOrderRequest {
            order_type,
            time_in_force: TimeInForce::Day,
            symbol: Some(symbol),
            qty: Some(qty),
            side: Some(side),
            position_intent: Some(String::from_str(intent)),
            order_class: None,
            legs: None,
            limit_price_thousandths,
            client_order_id: None,
        }
    } else {
        let mut out: Vec<OptionsLeg> = Vec::new();
        let mut legs = legs;
        let ghost all = legs@;
        let n = legs.len();
        let mut i: usize = 0;
        while i < n
            invariant
                i <= n,
                n == all.len(),
                legs@ == all.subrange(i as int, n as int),
                out@.len() == i,
                specs == all.map_values(|l: (String, OrderSide, &str)| leg_view(l)),
                forall|k: int|
                    0 <= k < i ==> {
                        &&& (#[trigger] out@[k]).symbol@ == specs[k].symbol
                        &&& out@[k].side == specs[k].side
                        &&& out@[k].position_intent@ == specs[k].intent
                        &&& out@[k].ratio_qty == contracts
                    },
            decreases n - i,
        {
            let (symbol, side, intent) = legs.remove(0);
            proof {
                assert(specs[i as int] == leg_view(all[i as int]));
            }
            out.push(OptionsLeg { symbol, ratio_qty: contracts, side, position_intent: String::from_str(intent) });
            i = i + 1;
        }
        OptionsOrderRequest {
            order_type,
            time_in_force: TimeInForce::Day,
            symbol: None,
            qty: Some(String::from_str("1")),
            side: None,
            position_intent: None,
            order_class: Some(String::from_str("mleg")),
            legs: Some(out),
            limit_price_thousandths,
            client_order_id: None,
        }
    }
}

/// Convert a [`SignalAction`] into an [`OptionsOrderRequest`] ready to
/// submit, with the expiry counted from `today`.
///
/// * `underlying` — ticker symbol, e.g. `"AAPL"`
/// * `contracts` — number of contracts (1 contract = 100 shares)
/// * `limit_price_thousandths` — net debit/credit to pay/receive in
///   thousandths of a dollar; `None` for market execution
///
/// Returns `Err` for signals that have no options representation
/// (`NoAction`, `ClosePosition`).
pub fn signal_to_options_order_on(
    signal: &SignalAction,
    underlying: &str,
    contracts: u32,
    limit_price_thousandths: Option<i64>,
    today: (i32, u32, u32),
) -> (r: Result<OptionsOrderRequest, String>)
    requires
        signal_in_range(*signal),
    ensures
        order_result_ok(r, *signal, underlying@, contracts, limit_price_thousandths, today),
        is_order_signal(*signal) && expiry_in_range(today, signal_days(*signal) as int) ==> r is Ok,
{
    let legs = signal_to_legs_on(signal, underlying, today);
    match legs {
        Err(m) => Err(m),
        Ok(legs) => {
            proof {
                reveal_with_fuel(vstd::seq::Seq::map_values, 1);
                assert(legs@.len() >= 1) by {
                    let e = spec_expiry_on(today, signal_days(*signal) as u64)->0;
                    assert(legs@.map_values(|l: (String, OrderSide, &str)| leg_view(l)).len()
                        == spec_legs_at(*signal, underlying@, e).len());
                }
            }
            Ok(build_request(legs, contracts, limit_price_thousandths))
        },
    }
}

/// [`signal_to_options_order_on`] with the expiry counted from today's local date.
pub fn signal_to_options_order(
    signal: &SignalAction,
    underlying: &str,
    contracts: u32,
    limit_price_thousandths: Option<i64>,
) -> (r: Result<OptionsOrderRequest, String>)
    requires
        signal_in_range(*signal),
    ensures
        exists|today: (i32, u32, u32)|
            #![trigger is_valid_date(today.0 as int, today.1 as int, today.2 as int)]
            is_valid_date(today.0 as int, today.1 as int, today.2 as int) && order_result_ok(
                r,
                *signal,
                underlying@,
                contracts,
                limit_price_thousandths,
                today,
            ) && (is_order_signal(*signal) && expiry_in_range(today, signal_days(*signal) as int) ==> r is Ok),
{
    let today = local_today();
    signal_to_options_order_on(signal, underlying, contracts, limit_price_thousandths, today)
}

// ─── Laws ────────────────────────────────────────────────────────────────────

/// A ticker that survives the OCC round trip: non-empty ASCII without
/// leading or trailing whitespace.
pub open spec fn is_plain_root(u: Seq<char>) -> bool {
    &&& u.len() >= 1
    &&& vstd::utf8::is_ascii_chars(u)
    &&& !is_ascii_space(u[0])
    &&& !is_ascii_space(u.last())
}

/// Every strike of the signal (and an iron butterfly's upper wing) is
/// below $100 000, the largest strike the eight OCC strike digits hold.
pub open spec fn strikes_below_limit(signal: SignalAction) -> bool {
    let lim: u64 = 100_000_000;
    match signal {
        SignalAction::BuyCall { strike, .. } => strike < lim,
        SignalAction::BuyPut { strike, .. } => strike < lim,
        SignalAction::SellCall { strike, .. } => strike < lim,
        SignalAction::SellPut { strike, .. } => strike < lim,
        SignalAction::CreditCallSpread { sell_strike, buy_strike, .. } => sell_strike < lim && buy_strike < lim,
        SignalAction::CreditPutSpread { sell_strike, buy_strike, .. } => sell_strike < lim && buy_strike < lim,
        SignalAction::IronCondor { sell_call_strike, buy_call_strike, sell_put_strike, buy_put_strike, .. } => {
            sell_call_strike < lim && buy_call_strike < lim && sell_put_strike < lim && buy_put_strike < lim
        },
        SignalAction::CoveredCall { sell_strike, .. } => sell_strike < lim,
        SignalAction::SellStraddle { strike, .. } => strike < lim,
        SignalAction::BuyStraddle { strike, .. } => strike < lim,
        SignalAction::IronButterfly { center_strike, wing_width, .. } => center_strike + wing_width < lim,
        SignalAction::CashSecuredPut { strike, .. } => strike < lim,
        _ => true,
    }
}

/// The leg's OCC symbol parses back to the root, the expiry and some
/// option type and strike from which it was built.
pub open spec fn leg_parses_back(l: LegSpec, u: Seq<char>, e: (u32, u32, u32)) -> bool {
    exists|c: bool, k: nat|
        #![trigger spec_occ_symbol(u, e.0 as nat, e.1 as nat, e.2 as nat, c, k)]
        l.symbol == spec_occ_symbol(u, e.0 as nat, e.1 as nat, e.2 as nat, c, k) && spec_parse_occ(l.symbol)
            == Some(
            OccView {
                root: u,
                year: 2000 + e.0 as int,
                month: e.1 as int,
                day: e.2 as int,
                expiry_str: built_expiry_str(e.0 as nat, e.1 as nat, e.2 as nat),
                is_call: c,
                strike_thousandths: k,
            },
        )
}

proof fn lemma_leg_parses_back(u: Seq<char>, e: (u32, u32, u32), is_call: bool, strike: u64, side: OrderSide)
    requires
        is_plain_root(u),
        e.0 < 100,
        is_valid_date(2000 + e.0 as int, e.1 as int, e.2 as int),
        strike < 100_000_000,
    ensures
        leg_parses_back(leg_spec(u, e, is_call, strike, side), u, e),
{
    lemma_occ_symbol_round_trip(u, e.0 as nat, e.1 as nat, e.2 as nat, is_call, strike as nat);
    assert(spec_occ_symbol(u, e.0 as nat, e.1 as nat, e.2 as nat, is_call, strike as nat) == leg_spec(
        u,
        e,
        is_call,
        strike,
        side,
    ).symbol);
}

/// Law: every leg of every order the library builds carries an OCC symbol
/// that the library's own parser reads back to the same root, expiry, type
/// and strike — so an order built from a valid signal passes OCC
/// validation structurally.
#[verifier::rlimit(50)]
pub proof fn lemma_order_legs_parse_back(signal: SignalAction, u: Seq<char>, e: (u32, u32, u32))
    requires
        is_plain_root(u),
        e.0 < 100,
        is_valid_date(2000 + e.0 as int, e.1 as int, e.2 as int),
        strikes_below_limit(signal),
    ensures
        forall|i: int|
            0 <= i < spec_legs_at(signal, u, e).len() ==> leg_parses_back(
                #[trigger] spec_legs_at(signal, u, e)[i],
                u,
                e,
            ),
{
    match signal {
        SignalAction::BuyCall { strike, .. } => lemma_leg_parses_back(u, e, true, strike, OrderSide::Buy),
        SignalAction::BuyPut { strike, .. } => lemma_leg_parses_back(u, e, false, strike, OrderSide::Buy),
        SignalAction::SellCall { strike, .. } => lemma_leg_parses_back(u, e, true, strike, OrderSide::Sell),
        SignalAction::SellPut { strike, .. } => lemma_leg_parses_back(u, e, false, strike, OrderSide::Sell),
        SignalAction::CreditCallSpread { sell_strike, buy_strike, .. } => {
            lemma_leg_parses_back(u, e, true, sell_strike, OrderSide::Sell);
            lemma_leg_parses_back(u, e, true, buy_strike, OrderSide::Buy);
        },
        SignalAction::CreditPutSpread { sell_strike, buy_strike, .. } => {
            lemma_leg_parses_back(u, e, false, sell_strike, OrderSide::Sell);
            lemma_leg_parses_back(u, e, false, buy_strike, OrderSide::Buy);
        },
        SignalAction::IronCondor { sell_call_strike, buy_call_strike, sell_put_strike, buy_put_strike, .. } => {
            lemma_leg_parses_back(u, e, true, sell_call_strike, OrderSide::Sell);
            lemma_leg_parses_back(u, e, true, buy_call_strike, OrderSide::Buy);
            lemma_leg_parses_back(u, e, false, sell_put_strike, OrderSide::Sell);
            lemma_leg_parses_back(u, e, false, buy_put_strike, OrderSide::Buy);
        },
        SignalAction::CoveredCall { sell_strike, .. } => lemma_leg_parses_back(u, e, true, sell_strike, OrderSide::Sell),
        SignalAction::SellStraddle { strike, .. } => {
            lemma_leg_parses_back(u, e, true, strike, OrderSide::Sell);
            lemma_leg_parses_back(u, e, false, strike, OrderSide::Sell);
        },
        SignalAction::BuyStraddle { strike, .. } => {
            lemma_leg_parses_back(u, e, true, strike, OrderSide::Buy);
            lemma_leg_parses_back(u, e, false, strike, OrderSide::Buy);
        },
        SignalAction::IronButterfly { center_strike, wing_width, .. } => {
            lemma_leg_parses_back(u, e, true, center_strike, OrderSide::Sell);
            lemma_leg_parses_back(u, e, true, (center_strike + wing_width) as u64, OrderSide::Buy);
            lemma_leg_parses_back(u, e, false, center_strike, OrderSide::Sell);
            lemma_leg_parses_back(u, e, false, lower_wing(center_strike, wing_width), OrderSide::Buy);
        },
        SignalAction::CashSecuredPut { strike, .. } => lemma_leg_parses_back(u, e, false, strike, OrderSide::Sell),
        _ => {},
    }
}

/// The leg's OCC symbol reads back as the root `u`, the expiry `e`
/// (two-digit year, month, day), the option type `is_call` and the strike
/// `k` in thousandths of a dollar.
pub open spec fn leg_reads_as(l: LegSpec, u: Seq<char>, e: (u32, u32, u32), is_call: bool, k: int) -> bool {
    &&& spec_parse_occ(l.symbol) is Some
    &&& spec_parse_occ(l.symbol)->0.root == u
    &&& spec_parse_occ(l.symbol)->0.year == 2000 + e.0
    &&& spec_parse_occ(l.symbol)->0.month == e.1
    &&& spec_parse_occ(l.symbol)->0.day == e.2
    &&& spec_parse_occ(l.symbol)->0.is_call == is_call
    &&& spec_parse_occ(l.symbol)->0.strike_thousandths == k
}

/// A leg of a two-sided position: when sold it opens a short at `sell`,
/// when bought it opens a long at `buy`, both of option type `is_call`.
pub open spec fn role_leg(l: LegSpec, u: Seq<char>, e: (u32, u32, u32), is_call: bool, sell: int, buy: int) -> bool {
    match l.side {
        OrderSide::Sell => leg_reads_as(l, u, e, is_call, sell) && l.intent == "sell_to_open"@,
        OrderSide::Buy => leg_reads_as(l, u, e, is_call, buy) && l.intent == "buy_to_open"@,
    }
}

/// The legs of a credit spread of option type `is_call`: exactly two legs,
/// one sold and one bought; the sold leg is at `sell` and the bought leg at
/// `buy`.
pub open spec fn is_credit_spread(legs: Seq<LegSpec>, u: Seq<char>, e: (u32, u32, u32), is_call: bool, sell: int, buy: int) -> bool {
    &&& legs.len() == 2
    &&& legs[0].side != legs[1].side
    &&& role_leg(legs[0], u, e, is_call, sell, buy)
    &&& role_leg(legs[1], u, e, is_call, sell, buy)
}

proof fn lemma_leg_reads_as(u: Seq<char>, e: (u32, u32, u32), is_call: bool, strike: u64, side: OrderSide)
    requires
        is_plain_root(u),
        e.0 < 100,
        is_valid_date(2000 + e.0 as int, e.1 as int, e.2 as int),
        strike < 100_000_000,
    ensures
        leg_reads_as(leg_spec(u, e, is_call, strike, side), u, e, is_call, strike as int),
        leg_spec(u, e, is_call, strike, side).side == side,
        leg_spec(u, e, is_call, strike, side).intent == open_intent(side),
{
    lemma_occ_symbol_round_trip(u, e.0 as nat, e.1 as nat, e.2 as nat, is_call, strike as nat);
}

/// Law: a credit call (put) spread is sold at its sell strike and bought at
/// its buy strike. Its order has exactly one sold and one bought leg, both
/// calls (puts) on the underlying at the expiry; the sold leg's OCC symbol
/// reads back as the signal's `sell_strike` and the bought leg's as its
/// `buy_strike`.
pub proof fn lemma_credit_spread_roles(signal: SignalAction, u: Seq<char>, e: (u32, u32, u32))
    requires
        is_plain_root(u),
        e.0 < 100,
        is_valid_date(2000 + e.0 as int, e.1 as int, e.2 as int),
        strikes_below_limit(signal),
    ensures
        signal matches SignalAction::CreditCallSpread { sell_strike, buy_strike, .. } ==> is_credit_spread(
            spec_legs_at(signal, u, e),
            u,
            e,
            true,
            sell_strike as int,
            buy_strike as int,
        ),
        signal matches SignalAction::CreditPutSpread { sell_strike, buy_strike, .. } ==> is_credit_spread(
            spec_legs_at(signal, u, e),
            u,
            e,
            false,
            sell_strike as int,
            buy_strike as int,
        ),
{
    match signal {
        SignalAction::CreditCallSpread { sell_strike, buy_strike, .. } => {
            lemma_leg_reads_as(u, e, true, sell_strike, OrderSide::Sell);
            lemma_leg_reads_as(u, e, true, buy_strike, OrderSide::Buy);
        },
        SignalAction::CreditPutSpread { sell_strike, buy_strike, .. } => {
            lemma_leg_reads_as(u, e, false, sell_strike, OrderSide::Sell);
            lemma_leg_reads_as(u, e, false, buy_strike, OrderSide::Buy);
        },
        _ => {},
    }
}

/// Law: an iron condor sells the call at its sell-call strike and the put at
/// its sell-put strike, and buys the call wing at its buy-call strike and
/// the put wing at its buy-put strike: two call legs (one sold, one bought)
/// followed by two put legs (one sold, one bought), each reading back as
/// the signal's strike for its role.
pub proof fn lemma_iron_condor_roles(signal: SignalAction, u: Seq<char>, e: (u32, u32, u32))
    requires
        is_plain_root(u),
        e.0 < 100,
        is_valid_date(2000 + e.0 as int, e.1 as int, e.2 as int),
        strikes_below_limit(signal),
    ensures
        signal matches SignalAction::IronCondor {
            sell_call_strike,
            buy_call_strike,
            sell_put_strike,
            buy_put_strike,
            ..
        } ==> {
            let legs = spec_legs_at(signal, u, e);
            &&& legs.len() == 4
            &&& is_credit_spread(legs.subrange(0, 2), u, e, true, sell_call_strike as int, buy_call_strike as int)
            &&& is_credit_spread(legs.subrange(2, 4), u, e, false, sell_put_strike as int, buy_put_strike as int)
        },
{
    match signal {
        SignalAction::IronCondor { sell_call_strike, buy_call_strike, sell_put_strike, buy_put_strike, .. } => {
            lemma_leg_reads_as(u, e, true, sell_call_strike, OrderSide::Sell);
            lemma_leg_reads_as(u, e, true, buy_call_strike, OrderSide::Buy);
            lemma_leg_reads_as(u, e, false, sell_put_strike, OrderSide::Sell);
            lemma_leg_reads_as(u, e, false, buy_put_strike, OrderSide::Buy);
            let legs = spec_legs_at(signal, u, e);
            assert(legs.subrange(0, 2)[0] == legs[0]);
            assert(legs.subrange(0, 2)[1] == legs[1]);
            assert(legs.subrange(2, 4)[0] == legs[2]);
            assert(legs.subrange(2, 4)[1] == legs[3]);
        },
        _ => {},
    }
}

/// Law: a straddle trades a call and a put at the signal's one strike, both
/// on the same side: sold for a short straddle, bought for a long one.
pub proof fn lemma_straddle_roles(signal: SignalAction, u: Seq<char>, e: (u32, u32, u32))
    requires
        is_plain_root(u),
        e.0 < 100,
        is_valid_date(2000 + e.0 as int, e.1 as int, e.2 as int),
        strikes_below_limit(signal),
    ensures
        signal matches SignalAction::SellStraddle { strike, .. } ==> {
            let legs = spec_legs_at(signal, u, e);
            &&& legs.len() == 2
            &&& legs[0].side == OrderSide::Sell && legs[1].side == OrderSide::Sell
            &&& leg_reads_as(legs[0], u, e, true, strike as int)
            &&& leg_reads_as(legs[1], u, e, false, strike as int)
        },
        signal matches SignalAction::BuyStraddle { strike, .. } ==> {
            let legs = spec_legs_at(signal, u, e);
            &&& legs.len() == 2
            &&& legs[0].side == OrderSide::Buy && legs[1].side == OrderSide::Buy
            &&& leg_reads_as(legs[0], u, e, true, strike as int)
            &&& leg_reads_as(legs[1], u, e, false, strike as int)
        },
{
    match signal {
        SignalAction::SellStraddle { strike, .. } => {
            lemma_leg_reads_as(u, e, true, strike, OrderSide::Sell);
            lemma_leg_reads_as(u, e, false, strike, OrderSide::Sell);
        },
        SignalAction::BuyStraddle { strike, .. } => {
            lemma_leg_reads_as(u, e, true, strike, OrderSide::Buy);
            lemma_leg_reads_as(u, e, false, strike, OrderSide::Buy);
        },
        _ => {},
    }
}

/// Law: a single-option signal trades one leg: a call for BuyCall,
/// SellCall and CoveredCall, a put for BuyPut, SellPut and CashSecuredPut;
/// bought for BuyCall and BuyPut, sold otherwise; at the signal's strike.
pub proof fn lemma_single_leg_roles(signal: SignalAction, u: Seq<char>, e: (u32, u32, u32))
    requires
        is_plain_root(u),
        e.0 < 100,
        is_valid_date(2000 + e.0 as int, e.1 as int, e.2 as int),
        strikes_below_limit(signal),
    ensures
        signal matches SignalAction::BuyCall { strike, .. } ==> spec_legs_at(signal, u, e).len() == 1
            && spec_legs_at(signal, u, e)[0].side == OrderSide::Buy && leg_reads_as(spec_legs_at(signal, u, e)[0], u, e, true, strike as int),
        signal matches SignalAction::BuyPut { strike, .. } ==> spec_legs_at(signal, u, e).len() == 1
            && spec_legs_at(signal, u, e)[0].side == OrderSide::Buy && leg_reads_as(spec_legs_at(signal, u, e)[0], u, e, false, strike as int),
        signal matches SignalAction::SellCall { strike, .. } ==> spec_legs_at(signal, u, e).len() == 1
            && spec_legs_at(signal, u, e)[0].side == OrderSide::Sell && leg_reads_as(spec_legs_at(signal, u, e)[0], u, e, true, strike as int),
        signal matches SignalAction::SellPut { strike, .. } ==> spec_legs_at(signal, u, e).len() == 1
            && spec_legs_at(signal, u, e)[0].side == OrderSide::Sell && leg_reads_as(spec_legs_at(signal, u, e)[0], u, e, false, strike as int),
        signal matches SignalAction::CoveredCall { sell_strike, .. } ==> spec_legs_at(signal, u, e).len() == 1
            && spec_legs_at(signal, u, e)[0].side == OrderSide::Sell && leg_reads_as(spec_legs_at(signal, u, e)[0], u, e, true, sell_strike as int),
        signal matches SignalAction::CashSecuredPut { strike, .. } ==> spec_legs_at(signal, u, e).len() == 1
            && spec_legs_at(signal, u, e)[0].side == OrderSide::Sell && leg_reads_as(spec_legs_at(signal, u, e)[0], u, e, false, strike as int),
{
    match signal {
        SignalAction::BuyCall { strike, .. } => lemma_leg_reads_as(u, e, true, strike, OrderSide::Buy),
        SignalAction::BuyPut { strike, .. } => lemma_leg_reads_as(u, e, false, strike, OrderSide::Buy),
        SignalAction::SellCall { strike, .. } => lemma_leg_reads_as(u, e, true, strike, OrderSide::Sell),
        SignalAction::SellPut { strike, .. } => lemma_leg_reads_as(u, e, false, strike, OrderSide::Sell),
        SignalAction::CoveredCall { sell_strike, .. } => lemma_leg_reads_as(u, e, true, sell_strike, OrderSide::Sell),
        SignalAction::CashSecuredPut { strike, .. } => lemma_leg_reads_as(u, e, false, strike, OrderSide::Sell),
        _ => {},
    }
}

/// Law: an iron butterfly sells a call and a put at the center strike and
/// buys the call wing at `center + width` and the put wing at
/// `center - width` (never below $0.01): a call spread followed by a put
/// spread, each reading back as those strikes.
pub proof fn lemma_iron_butterfly_roles(signal: SignalAction, u: Seq<char>, e: (u32, u32, u32))
    requires
        is_plain_root(u),
        e.0 < 100,
        is_valid_date(2000 + e.0 as int, e.1 as int, e.2 as int),
        strikes_below_limit(signal),
    ensures
        signal matches SignalAction::IronButterfly { center_strike, wing_width, .. } ==> {
            let legs = spec_legs_at(signal, u, e);
            let put_wing: int = if center_strike >= wing_width + 10 { center_strike - wing_width } else { 10 };
            &&& legs.len() == 4
            &&& is_credit_spread(legs.subrange(0, 2), u, e, true, center_strike as int, center_strike + wing_width)
            &&& is_credit_spread(legs.subrange(2, 4), u, e, false, center_strike as int, put_wing)
        },
{
    match signal {
        SignalAction::IronButterfly { center_strike, wing_width, .. } => {
            lemma_leg_reads_as(u, e, true, center_strike, OrderSide::Sell);
            lemma_leg_reads_as(u, e, true, (center_strike + wing_width) as u64, OrderSide::Buy);
            lemma_leg_reads_as(u, e, false, center_strike, OrderSide::Sell);
            lemma_leg_reads_as(u, e, false, lower_wing(center_strike, wing_width), OrderSide::Buy);
            let legs = spec_legs_at(signal, u, e);
            assert(legs.subrange(0, 2)[0] == legs[0]);
            assert(legs.subrange(0, 2)[1] == legs[1]);
            assert(legs.subrange(2, 4)[0] == legs[2]);
            assert(legs.subrange(2, 4)[1] == legs[3]);
        },
        _ => {},
    }
}

} // verus!
