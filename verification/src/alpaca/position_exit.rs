//! Calendar rules of the live bot for closing an open option position.
//!
//! A position with a stored expiry closes once it has expired or is one day
//! from expiry (to avoid pin risk); otherwise its repriced premium decides,
//! which the caller computes. A position without an expiry closes after a
//! maximum number of days from entry, or at once when its entry date cannot
//! be read (a stale reconciled record).

use crate::calendar::{
    day_number_of, days_between, is_valid_date, lemma_day_number_bounds, parse_iso_date, parsed_iso_date, utc_today,
};
use crate::text::{dec_int, push_signed_decimal};
use vstd::prelude::*;
use vstd::string::{StringExecFns, StringSliceAdditionalSpecFns};
use vstd::utf8::{decode_utf8, encode_utf8};

verus! {

broadcast use vstd::utf8::encode_utf8_decode_utf8;

/// What the calendar says about an open position.
#[derive(Debug)]
pub enum ExitCheck {
    /// Close now, for the given reason.
    Close { reason: String },
    /// Not due by the calendar; `remaining_days` (at least 2) are left to
    /// expiry and the profit target / stop loss decide.
    CheckProfitLoss { remaining_days: i64 },
    /// Keep the position.
    Hold,
}

/// The mathematical content of an [`ExitCheck`].
pub enum ExitView {
    Close(Seq<char>),
    CheckProfitLoss(int),
    Hold,
}

impl View for ExitCheck {
    type V = ExitView;

    open spec fn view(&self) -> ExitView {
        match self {
            ExitCheck::Close { reason } => ExitView::Close(reason@),
            ExitCheck::CheckProfitLoss { remaining_days } => ExitView::CheckProfitLoss(*remaining_days as int),
            ExitCheck::Hold => ExitView::Hold,
        }
    }
}

/// The text of the first ten bytes of `s` (its `YYYY-MM-DD` part), or the
/// empty text when `s` is shorter.
pub open spec fn date_prefix(s: Seq<char>) -> Seq<char> {
    if encode_utf8(s).len() >= 10 {
        decode_utf8(encode_utf8(s).subrange(0, 10))
    } else {
        Seq::empty()
    }
}

/// The calendar decision for a position with stored expiry text `expires`
/// (if any), entry timestamp `entry`, on day `today`, with positions
/// without expiry held at most `max_days` days.
pub open spec fn exit_rule(
    expires: Option<Seq<char>>,
    entry: Seq<char>,
    today: (i32, u32, u32),
    max_days: int,
) -> ExitView {
    match expires {
        Some(exp) => match parsed_iso_date(exp) {
            Some(e) => {
                let remaining = day_number_of(e) - day_number_of(today);
                if remaining <= 0 {
                    ExitView::Close("expired / max days reached"@)
                } else if remaining <= 1 {
                    ExitView::Close("1 DTE early exit (exp "@ + exp + ")"@)
                } else {
                    ExitView::CheckProfitLoss(remaining)
                }
            },
            None => ExitView::Hold,
        },
        None => match parsed_iso_date(date_prefix(entry)) {
            Some(d) => {
                let age = day_number_of(today) - day_number_of(d);
                if age >= max_days {
                    ExitView::Close("max "@ + dec_int(age) + " days elapsed"@)
                } else {
                    ExitView::Hold
                }
            },
            None => ExitView::Close("stale reconciled position (no valid entry date)"@),
        },
    }
}

/// The calendar exit decision on `today`. An entry timestamp of ten bytes
/// or more must have a character boundary after its tenth byte (its
/// `YYYY-MM-DD` part is cut there).
pub fn position_exit_check_on(
    expires_at: Option<&str>,
    entry_date: &str,
    today: (i32, u32, u32),
    max_position_days: i64,
) -> (r: ExitCheck)
    requires
        is_valid_date(today.0 as int, today.1 as int, today.2 as int),
        entry_date.spec_bytes().len() >= 10 ==> vstd::utf8::is_char_boundary(entry_date.spec_bytes(), 10),
    ensures
        r@ == exit_rule(
            match expires_at {
                Some(e) => Some(e@),
                None => None,
            },
            entry_date@,
            today,
            max_position_days as int,
        ),
{
    proof {
        lemma_day_number_bounds(today.0 as int, today.1 as int, today.2 as int);
    }
    match expires_at {
        Some(exp_str) => match parse_iso_date(exp_str) {
            Some(exp) => {
                proof {
                    lemma_day_number_bounds(exp.0 as int, exp.1 as int, exp.2 as int);
                }
                let remaining = days_between(today, exp);
                if remaining <= 0 {
                    ExitCheck::Close { reason: String::from_str("expired / max days reached") }
                } else if remaining <= 1 {
                    let mut reason = String::from_str("1 DTE early exit (exp ");
                    reason.append(exp_str);
                    reason.append(")");
                    ExitCheck::Close { reason }
                } else {
                    ExitCheck::CheckProfitLoss { remaining_days: remaining }
                }
            },
            None => ExitCheck::Hold,
        },
        None => {
            let byte_len = entry_date.as_bytes().len();
            let raw: &str = if byte_len >= 10 {
                let (head, _) = entry_date.split_at(10);
                proof {
                    assert(encode_utf8(head@) == encode_utf8(entry_date@).subrange(0, 10));
                    assert(decode_utf8(encode_utf8(head@)) == head@);
                    assert(head@ == date_prefix(entry_date@));
                }
                head
            } else {
                proof {
                    reveal_strlit("");
                    assert(""@ =~= date_prefix(entry_date@));
                }
                ""
            };
            match parse_iso_date(raw) {
                Some(entry) => {
                    proof {
                        lemma_day_number_bounds(entry.0 as int, entry.1 as int, entry.2 as int);
                    }
                    let age = days_between(entry, today);
                    if age >= max_position_days {
                        let mut reason = String::from_str("max ");
                        push_signed_decimal(&mut reason, age);
                        reason.append(" days elapsed");
                        ExitCheck::Close { reason }
                    } else {
                        ExitCheck::Hold
                    }
                },
                None => ExitCheck::Close {
                    reason: String::from_str("stale reconciled position (no valid entry date)"),
                },
            }
        },
    }
}

/// [`position_exit_check_on`] for today's UTC date.
pub fn position_exit_check(expires_at: Option<&str>, entry_date: &str, max_position_days: i64) -> (r: ExitCheck)
    requires
        entry_date.spec_bytes().len() >= 10 ==> vstd::utf8::is_char_boundary(entry_date.spec_bytes(), 10),
    ensures
        exists|today: (i32, u32, u32)|
            is_valid_date(today.0 as int, today.1 as int, today.2 as int) && r@ == exit_rule(
                match expires_at {
                    Some(e) => Some(e@),
                    None => None,
                },
                entry_date@,
                today,
                max_position_days as int,
            ),
{
    let today = utc_today();
    position_exit_check_on(expires_at, entry_date, today, max_position_days)
}

/// Law: a position whose stored expiry has passed, or is at most one day
/// away, is always closed by the calendar rule.
pub proof fn lemma_expired_positions_close(exp: Seq<char>, entry: Seq<char>, today: (i32, u32, u32), max_days: int)
    requires
        parsed_iso_date(exp) matches Some(e) && day_number_of(e) - day_number_of(today) <= 1,
    ensures
        exit_rule(Some(exp), entry, today, max_days) is Close,
{
}

} // verus!
