//! Holding period of a position, from the timestamps of its bars.
//!
//! Bar timestamps look like `"2025-01-03 00:00:00-05:00"`: the date is the
//! first whitespace-separated token.

use crate::calendar::{day_number_of, days_between, lemma_day_number_bounds, parse_iso_date, parsed_iso_date};
use vstd::prelude::*;

verus! {

/// The Unicode `White_Space` characters, which `char::is_whitespace`
/// recognises: tab to carriage return, space, next line, no-break space,
/// ogham space mark, the en quad to hair space block, line and paragraph
/// separators, narrow no-break space, medium mathematical space and
/// ideographic space.
pub open spec fn unicode_whitespace(c: char) -> bool {
    let u = c as u32;
    ||| 0x09 <= u <= 0x0D
    ||| u == 0x20
    ||| u == 0x85
    ||| u == 0xA0
    ||| u == 0x1680
    ||| 0x2000 <= u <= 0x200A
    ||| u == 0x2028
    ||| u == 0x2029
    ||| u == 0x202F
    ||| u == 0x205F
    ||| u == 0x3000
}

/// Whether a character is Unicode whitespace (`char::is_whitespace`).
pub fn is_whitespace(c: char) -> (b: bool)
    ensures
        b == unicode_whitespace(c),
{
    let u = c as u32;
    (0x09 <= u && u <= 0x0D) || u == 0x20 || u == 0x85 || u == 0xA0 || u == 0x1680 || (0x2000 <= u && u
        <= 0x200A) || u == 0x2028 || u == 0x2029 || u == 0x202F || u == 0x205F || u == 0x3000
}

/// `s` without its leading whitespace.
pub open spec fn skip_whitespace(s: Seq<char>) -> Seq<char>
    decreases s.len(),
{
    if s.len() > 0 && unicode_whitespace(s[0]) {
        skip_whitespace(s.drop_first())
    } else {
        s
    }
}

/// The characters of `s` up to its first whitespace.
pub open spec fn leading_word(s: Seq<char>) -> Seq<char>
    decreases s.len(),
{
    if s.len() == 0 || unicode_whitespace(s[0]) {
        Seq::empty()
    } else {
        seq![s[0]] + leading_word(s.drop_first())
    }
}

/// The first whitespace-separated token of `s`, if any.
pub open spec fn first_token(s: Seq<char>) -> Option<Seq<char>> {
    let t = skip_whitespace(s);
    if t.len() == 0 {
        None
    } else {
        Some(leading_word(t))
    }
}

/// The date of a bar timestamp: its first token parsed as `YYYY-MM-DD`.
pub open spec fn timestamp_date(s: Seq<char>) -> Option<(i32, u32, u32)> {
    match first_token(s) {
        Some(tok) => parsed_iso_date(tok),
        None => None,
    }
}

/// Days between two bar timestamps, whichever comes first; 1 when either
/// date cannot be read.
pub open spec fn days_held(start: Seq<char>, end: Seq<char>) -> int {
    match (timestamp_date(start), timestamp_date(end)) {
        (Some(a), Some(b)) => {
            let diff = day_number_of(b) - day_number_of(a);
            if diff < 0 {
                -diff
            } else {
                diff
            }
        },
        _ => 1,
    }
}

pub(crate) proof fn lemma_skip_from(s: Seq<char>, i: int)
    requires
        0 <= i <= s.len(),
        forall|k: int| 0 <= k < i ==> unicode_whitespace(#[trigger] s[k]),
    ensures
        skip_whitespace(s) == skip_whitespace(s.subrange(i, s.len() as int)),
    decreases i,
{
    if i > 0 {
        assert(unicode_whitespace(s[0]));
        let t = s.drop_first();
        assert forall|k: int| 0 <= k < i - 1 implies unicode_whitespace(#[trigger] t[k]) by {
            assert(t[k] == s[k + 1]);
        }
        lemma_skip_from(t, i - 1);
        assert(t.subrange(i - 1, t.len() as int) =~= s.subrange(i, s.len() as int));
    } else {
        assert(s.subrange(0, s.len() as int) =~= s);
    }
}

proof fn lemma_word_until(s: Seq<char>, j: int)
    requires
        0 <= j <= s.len(),
        forall|k: int| 0 <= k < j ==> !unicode_whitespace(#[trigger] s[k]),
        j == s.len() || unicode_whitespace(s[j]),
    ensures
        leading_word(s) == s.subrange(0, j),
    decreases j,
{
    if j == 0 {
        assert(s.subrange(0, 0) =~= Seq::<char>::empty());
    } else {
        let t = s.drop_first();
        assert forall|k: int| 0 <= k < j - 1 implies !unicode_whitespace(#[trigger] t[k]) by {
            assert(t[k] == s[k + 1]);
        }
        assert(!unicode_whitespace(s[0]));
        if j < s.len() {
            assert(t[j - 1] == s[j]);
        }
        lemma_word_until(t, j - 1);
        assert(seq![s[0]] + t.subrange(0, j - 1) =~= s.subrange(0, j));
    }
}

/// The first whitespace-separated token of `s`, or `None` for a blank string.
pub fn first_token_of(s: &str) -> (r: Option<&str>)
    ensures
        match r {
            Some(t) => first_token(s@) == Some(t@),
            None => first_token(s@) is None,
        },
{
    let n = s.unicode_len();
    let mut i: usize = 0;
    while i < n && is_whitespace(s.get_char(i))
        invariant
            n == s@.len(),
            i <= n,
            forall|k: int| 0 <= k < i ==> unicode_whitespace(#[trigger] s@[k]),
        decreases n - i,
    {
        i = i + 1;
    }
    proof {
        lemma_skip_from(s@, i as int);
    }
    if i == n {
        assert(s@.subrange(i as int, n as int).len() == 0);
        return None;
    }
    let ghost rest = s@.subrange(i as int, n as int);
    assert(!unicode_whitespace(rest[0]));
    let mut j: usize = i;
    while j < n && !is_whitespace(s.get_char(j))
        invariant
            n == s@.len(),
            i <= j <= n,
            forall|k: int| i <= k < j ==> !unicode_whitespace(#[trigger] s@[k]),
        decreases n - j,
    {
        j = j + 1;
    }
    proof {
        assert forall|k: int| 0 <= k < j - i implies !unicode_whitespace(#[trigger] rest[k]) by {
            assert(rest[k] == s@[i + k]);
        }
        if j < n {
            assert(rest[j - i] == s@[j as int]);
        }
        lemma_word_until(rest, j - i);
        assert(rest.subrange(0, j - i) =~= s@.subrange(i as int, j as int));
    }
    Some(s.substring_char(i, j))
}

/// Days a position was held between the bar timestamps `start` and `end`
/// (absolute difference of their dates); 1 when either date is unreadable.
pub fn calculate_days_between(start: &str, end: &str) -> (r: usize)
    ensures
        r == days_held(start@, end@),
{
    let a = match first_token_of(start) {
        Some(tok) => parse_iso_date(tok),
        None => None,
    };
    let b = match first_token_of(end) {
        Some(tok) => parse_iso_date(tok),
        None => None,
    };
    match (a, b) {
        (Some(x), Some(y)) => {
            proof {
                lemma_day_number_bounds(x.0 as int, x.1 as int, x.2 as int);
                lemma_day_number_bounds(y.0 as int, y.1 as int, y.2 as int);
            }
            let d = days_between(x, y);
            if d < 0 {
                (-d) as usize
            } else {
                d as usize
            }
        },
        _ => 1,
    }
}

/// The backtest's calendar exit for a position held `days_held` days:
/// "Max Hold Period" at the holding limit, else "Near Expiry" from two days
/// before expiry on; `None` leaves the decision to stop loss / take profit.
pub open spec fn time_exit_reason(days_held: nat, max_days_hold: nat, days_to_expiry: nat) -> Option<Seq<char>> {
    if days_held >= max_days_hold {
        Some("Max Hold Period"@)
    } else if days_held + 2 >= days_to_expiry {
        Some("Near Expiry"@)
    } else {
        None
    }
}

/// The calendar part of the backtest's exit check.
pub fn time_exit(days_held: usize, max_days_hold: usize, days_to_expiry: usize) -> (r: Option<&'static str>)
    ensures
        match time_exit_reason(days_held as nat, max_days_hold as nat, days_to_expiry as nat) {
            Some(m) => r matches Some(s) && s@ == m,
            None => r is None,
        },
{
    if days_held >= max_days_hold {
        Some("Max Hold Period")
    } else if days_held >= days_to_expiry.saturating_sub(2) {
        Some("Near Expiry")
    } else {
        None
    }
}

/// Law: the holding period does not depend on the order of the two
/// timestamps, and is zero for a bar held against itself when its date is
/// readable.
pub proof fn lemma_days_held_symmetric(a: Seq<char>, b: Seq<char>)
    ensures
        days_held(a, b) == days_held(b, a),
        days_held(a, b) >= 0,
        timestamp_date(a) is Some ==> days_held(a, a) == 0,
{
}

} // verus!
