//! OCC option symbol parser and builder.
//!
//! Handles both compact (`GLD260626P00405000`) and padded
//! (`AAPL  260117C00150000`) root formats by parsing from the right side of
//! the string. Layout from the right:
//! `[8-digit strike][C|P][6-digit YYMMDD][root]`.

use crate::calendar::is_valid_date;
use crate::calendar::calendar_date;
use crate::text::{lemma_zero_pad_digits, dec, zero_pad, space_pad_right, repeat_char, push_zero_padded, is_digit_char, digit_value, all_digits, digits_value, push_char, pow10, lemma_pow10_le, lemma_pow10_18};
use vstd::prelude::*;
use vstd::string::StringSliceAdditionalSpecFns;

verus! {

broadcast use vstd::string::group_string_axioms;

// ─── Character classes ───────────────────────────────────────────────────────

/// ASCII whitespace as `char::is_whitespace` classifies it
/// (tab, line feed, vertical tab, form feed, carriage return, space).
pub open spec fn is_ascii_space(c: char) -> bool {
    c == ' ' || (9 <= c as u32 <= 13)
}

pub open spec fn trim_start(s: Seq<char>) -> Seq<char>
    decreases s.len(),
{
    if s.len() > 0 && is_ascii_space(s[0]) {
        trim_start(s.drop_first())
    } else {
        s
    }
}

pub open spec fn trim_end(s: Seq<char>) -> Seq<char>
    decreases s.len(),
{
    if s.len() > 0 && is_ascii_space(s.last()) {
        trim_end(s.drop_last())
    } else {
        s
    }
}

/// `str::trim` on ASCII text.
pub open spec fn trim(s: Seq<char>) -> Seq<char> {
    trim_end(trim_start(s))
}

// ─── Parsed symbol ───────────────────────────────────────────────────────────

/// Parsed components of an OCC option symbol.
#[derive(Debug, Clone)]
pub struct OccParts {
    pub root: String,
    /// Expiry year (four digits).
    pub year: i32,
    /// Expiry month, 1–12.
    pub month: u32,
    /// Expiry day of month.
    pub day: u32,
    /// ISO date string "YYYY-MM-DD".
    pub expiry_str: String,
    pub is_call: bool,
    /// Strike price in thousandths of a dollar (`00405000` → 405000 = $405.000).
    pub strike_thousandths: u64,
}

/// Mathematical content of an [`OccParts`].
pub struct OccView {
    pub root: Seq<char>,
    pub year: int,
    pub month: int,
    pub day: int,
    pub expiry_str: Seq<char>,
    pub is_call: bool,
    pub strike_thousandths: nat,
}

impl View for OccParts {
    type V = OccView;

    open spec fn view(&self) -> OccView {
        OccView {
            root: self.root@,
            year: self.year as int,
            month: self.month as int,
            day: self.day as int,
            expiry_str: self.expiry_str@,
            is_call: self.is_call,
            strike_thousandths: self.strike_thousandths as nat,
        }
    }
}

/// What [`parse_occ`] yields for the characters `s`.
pub open spec fn spec_parse_occ(s: Seq<char>) -> Option<OccView> {
    if !vstd::utf8::is_ascii_chars(s) || s.len() < 16 {
        None
    } else {
        let t = s.len() - 9;
        let ds = t - 6;
        let ty = s[t];
        if ty != 'C' && ty != 'P' {
            None
        } else if !all_digits(s.subrange(ds, t)) || !all_digits(s.subrange(t + 1, s.len() as int)) {
            None
        } else {
            let root = trim(s.subrange(0, ds));
            let yy = digits_value(s.subrange(ds, ds + 2));
            let mm = digits_value(s.subrange(ds + 2, ds + 4));
            let dd = digits_value(s.subrange(ds + 4, ds + 6));
            if root.len() == 0 || !is_valid_date(2000 + yy as int, mm as int, dd as int) {
                None
            } else {
                Some(
                    OccView {
                        root,
                        year: 2000 + yy as int,
                        month: mm as int,
                        day: dd as int,
                        expiry_str: seq!['2', '0'] + s.subrange(ds, ds + 2) + seq!['-'] + s.subrange(
                            ds + 2,
                            ds + 4,
                        ) + seq!['-'] + s.subrange(ds + 4, ds + 6),
                        is_call: ty == 'C',
                        strike_thousandths: digits_value(s.subrange(t + 1, s.len() as int)),
                    },
                )
            }
        }
    }
}

pub open spec fn parsed_as(r: Option<OccParts>, v: Option<OccView>) -> bool {
    match r {
        Some(p) => v == Some(p@),
        None => v is None,
    }
}

// ─── Executable helpers ──────────────────────────────────────────────────────

fn digit_at(s: &str, i: usize) -> (r: Option<u32>)
    requires
        i < s@.len(),
    ensures
        r is Some <==> is_digit_char(s@[i as int]),
        r matches Some(v) ==> v == digit_value(s@[i as int]) && v < 10,
{
    let c = s.get_char(i);
    let v = c as u32;
    if 48 <= v && v <= 57 {
        Some(v - 48)
    } else {
        None
    }
}

proof fn lemma_digits_step(s: Seq<char>, lo: int, i: int)
    requires
        0 <= lo <= i < s.len(),
    ensures
        digits_value(s.subrange(lo, i + 1)) == digits_value(s.subrange(lo, i)) * 10 + digit_value(s[i]),
        s.subrange(lo, i + 1).drop_last() == s.subrange(lo, i),
{
    assert(s.subrange(lo, i + 1).drop_last() =~= s.subrange(lo, i));
}

/// Value of the digits `s[lo..hi]` when all are decimal digits.
fn digits_in(s: &str, lo: usize, hi: usize) -> (r: Option<u64>)
    requires
        lo <= hi <= s@.len(),
        hi - lo <= 18,
    ensures
        r is Some <==> all_digits(s@.subrange(lo as int, hi as int)),
        r matches Some(v) ==> v == digits_value(s@.subrange(lo as int, hi as int)),
{
    let mut v: u64 = 0;
    let mut i = lo;
    let ghost mut bound: nat = 1;
    while i < hi
        invariant
            lo <= i <= hi <= s@.len(),
            hi - lo <= 18,
            all_digits(s@.subrange(lo as int, i as int)),
            v == digits_value(s@.subrange(lo as int, i as int)),
            v < bound,
            bound == pow10((i - lo) as nat),
        decreases hi - i,
    {
        match digit_at(s, i) {
            Some(d) => {
                proof {
                    lemma_digits_step(s@, lo as int, i as int);
                    lemma_pow10_le((i - lo) as nat, 17);
                    lemma_pow10_18();
                    assert(pow10((i + 1 - lo) as nat) == 10 * pow10((i - lo) as nat));
                    assert forall|k: int| lo <= k < i + 1 implies is_digit_char(
                        #[trigger] s@.subrange(lo as int, i + 1)[k - lo],
                    ) by {
                        if k < i {
                            assert(s@.subrange(lo as int, i + 1)[k - lo] == s@.subrange(lo as int, i as int)[k - lo]);
                        }
                    }
                    assert(all_digits(s@.subrange(lo as int, i + 1))) by {
                        assert forall|j: int| 0 <= j < s@.subrange(lo as int, i + 1).len() implies
                            is_digit_char(#[trigger] s@.subrange(lo as int, i + 1)[j]) by {
                            assert(s@.subrange(lo as int, i + 1)[(j + lo) - lo] == s@.subrange(lo as int, i + 1)[j]);
                        }
                    }
                    bound = bound * 10;
                }
                v = v * 10 + d as u64;
                i = i + 1;
            },
            None => {
                proof {
                    assert(s@.subrange(lo as int, hi as int)[i - lo] == s@[i as int]);
                }
                return None;
            },
        }
    }
    Some(v)
}

proof fn lemma_trim_start_step(s: Seq<char>, a: int, n: int)
    requires
        0 <= a < n <= s.len(),
        is_ascii_space(s[a]),
    ensures
        trim_start(s.subrange(a, n)) == trim_start(s.subrange(a + 1, n)),
{
    assert(s.subrange(a, n).drop_first() =~= s.subrange(a + 1, n));
}

proof fn lemma_trim_end_step(s: Seq<char>, a: int, b: int)
    requires
        0 <= a < b <= s.len(),
        is_ascii_space(s[b - 1]),
    ensures
        trim_end(s.subrange(a, b)) == trim_end(s.subrange(a, b - 1)),
{
    assert(s.subrange(a, b).drop_last() =~= s.subrange(a, b - 1));
}

/// Bounds `[a, b)` of `trim(s[0..end])` inside `s`.
fn trim_bounds(s: &str, end: usize) -> (r: (usize, usize))
    requires
        end <= s@.len(),
    ensures
        r.0 <= r.1 <= end,
        trim(s@.subrange(0, end as int)) == s@.subrange(r.0 as int, r.1 as int),
{
    let mut a: usize = 0;
    while a < end && is_space_at(s, a)
        invariant
            a <= end <= s@.len(),
            trim_start(s@.subrange(0, end as int)) == trim_start(s@.subrange(a as int, end as int)),
        decreases end - a,
    {
        proof {
            lemma_trim_start_step(s@, a as int, end as int);
        }
        a = a + 1;
    }
    assert(trim_start(s@.subrange(a as int, end as int)) == s@.subrange(a as int, end as int));
    let mut b: usize = end;
    while b > a && is_space_at(s, b - 1)
        invariant
            a <= b <= end <= s@.len(),
            trim_end(s@.subrange(a as int, end as int)) == trim_end(s@.subrange(a as int, b as int)),
        decreases b,
    {
        proof {
            lemma_trim_end_step(s@, a as int, b as int);
        }
        b = b - 1;
    }
    assert(trim_end(s@.subrange(a as int, b as int)) == s@.subrange(a as int, b as int));
    (a, b)
}

fn is_space_at(s: &str, i: usize) -> (r: bool)
    requires
        i < s@.len(),
    ensures
        r == is_ascii_space(s@[i as int]),
{
    let c = s.get_char(i);
    c == ' ' || (9 <= c as u32 && c as u32 <= 13)
}

/// Parse an OCC symbol into its components.
/// Returns `None` if the symbol does not match the expected layout: it must
/// be ASCII, at least 16 characters long, end in `[C|P][8 digits]` preceded
/// by six date digits `YYMMDD` naming a real calendar day of year `20YY`,
/// with a non-blank root in front.
pub fn parse_occ(occ: &str) -> (r: Option<OccParts>)
    ensures
        parsed_as(r, spec_parse_occ(occ@)),
{
    if !occ.is_ascii() {
        return None;
    }
    let len = occ.unicode_len();
    if len < 16 {
        return None;
    }
    let type_idx = len - 9;
    let type_char = occ.get_char(type_idx);
    if type_char != 'C' && type_char != 'P' {
        return None;
    }
    let date_start = type_idx - 6;
    if digits_in(occ, date_start, type_idx).is_none() {
        return None;
    }
    let yy = match digits_in(occ, date_start, date_start + 2) {
        Some(v) => v,
        None => {
            proof {
                assert(occ@.subrange(date_start as int, date_start + 2)[0] == occ@.subrange(date_start as int, type_idx as int)[0]);
            }
            return None;
        },
    };
    let ghost sd = occ@.subrange(date_start as int, type_idx as int);
    proof {
        assert forall|k: int| 0 <= k < 2 implies is_digit_char(#[trigger] occ@.subrange(date_start + 2, date_start + 4)[k]) by {
            assert(occ@.subrange(date_start + 2, date_start + 4)[k] == sd[k + 2]);
        }
        assert forall|k: int| 0 <= k < 2 implies is_digit_char(#[trigger] occ@.subrange(date_start + 4, date_start + 6)[k]) by {
            assert(occ@.subrange(date_start + 4, date_start + 6)[k] == sd[k + 4]);
        }
        assert forall|k: int| 0 <= k < 2 implies is_digit_char(#[trigger] occ@.subrange(date_start as int, date_start + 2)[k]) by {
            assert(occ@.subrange(date_start as int, date_start + 2)[k] == sd[k]);
        }
    }
    let mm = match digits_in(occ, date_start + 2, date_start + 4) {
        Some(v) => v,
        None => return None,
    };
    let dd = match digits_in(occ, date_start + 4, date_start + 6) {
        Some(v) => v,
        None => return None,
    };
    let strike_raw = match digits_in(occ, type_idx + 1, len) {
        Some(v) => v,
        None => return None,
    };
    let (a, b) = trim_bounds(occ, date_start);
    if a == b {
        return None;
    }
    proof {
        reveal_with_fuel(digits_value, 3);
    }
    assert(yy < 100 && mm < 100 && dd < 100);
    let date = calendar_date(2000 + yy as i32, mm as u32, dd as u32);
    if date.is_none() {
        return None;
    }
    let root = String::from_str(occ.substring_char(a, b));
    let mut expiry_str = String::new();
    push_char(&mut expiry_str, '2');
    push_char(&mut expiry_str, '0');
    push_char(&mut expiry_str, occ.get_char(date_start));
    push_char(&mut expiry_str, occ.get_char(date_start + 1));
    push_char(&mut expiry_str, '-');
    push_char(&mut expiry_str, occ.get_char(date_start + 2));
    push_char(&mut expiry_str, occ.get_char(date_start + 3));
    push_char(&mut expiry_str, '-');
    push_char(&mut expiry_str, occ.get_char(date_start + 4));
    push_char(&mut expiry_str, occ.get_char(date_start + 5));
    let parts = OccParts {
        root,
        year: 2000 + yy as i32,
        month: mm as u32,
        day: dd as u32,
        expiry_str,
        is_call: type_char == 'C',
        strike_thousandths: strike_raw,
    };
    proof {
        let s = occ@;
        let ds = date_start as int;
        assert(parts.expiry_str@ =~= seq!['2', '0'] + s.subrange(ds, ds + 2) + seq!['-'] + s.subrange(ds + 2, ds + 4)
            + seq!['-'] + s.subrange(ds + 4, ds + 6));
    }
    Some(parts)
}

/// Convenience: returns the `"YYYY-MM-DD"` expiry string or `None`.
pub fn parse_occ_expiry_str(occ: &str) -> (r: Option<String>)
    ensures
        match spec_parse_occ(occ@) {
            Some(v) => r matches Some(e) && e@ == v.expiry_str,
            None => r is None,
        },
{
    match parse_occ(occ) {
        Some(p) => Some(p.expiry_str),
        None => None,
    }
}

// ─── Fixed-position expiry reader ────────────────────────────────────────────

/// `u32::from_str` on a two-byte string: two decimal digits, or `+`
/// followed by one digit.
pub open spec fn parse_two_byte_u32(b0: u8, b1: u8) -> Option<nat> {
    if 48 <= b0 <= 57 && 48 <= b1 <= 57 {
        Some(((b0 - 48) * 10 + (b1 - 48)) as nat)
    } else if b0 == 43 && 48 <= b1 <= 57 {
        Some((b1 - 48) as nat)
    } else {
        None
    }
}

/// `"20YY-MM-DD"` rendered from the three numbers.
pub open spec fn iso_expiry(yy: nat, mm: nat, dd: nat) -> Seq<char> {
    seq!['2', '0'] + zero_pad(dec(yy), 2) + seq!['-'] + zero_pad(dec(mm), 2) + seq!['-'] + zero_pad(dec(dd), 2)
}

/// What [`parse_occ_expiry`] yields for the UTF-8 bytes `b`: the six date
/// digits sit just before the type letter and the eight strike digits, so
/// they start 15 bytes before the end whatever the root's length.
pub open spec fn spec_parse_occ_expiry(b: Seq<u8>) -> Option<Seq<char>> {
    if b.len() < 15 {
        None
    } else {
        let ds = b.len() - 15;
        match (
            parse_two_byte_u32(b[ds], b[ds + 1]),
            parse_two_byte_u32(b[ds + 2], b[ds + 3]),
            parse_two_byte_u32(b[ds + 4], b[ds + 5]),
        ) {
            (Some(yy), Some(mm), Some(dd)) => {
                if mm < 1 || mm > 12 || dd < 1 || dd > 31 {
                    None
                } else {
                    Some(iso_expiry(yy, mm, dd))
                }
            },
            _ => None,
        }
    }
}

fn two_byte_u32(b0: u8, b1: u8) -> (r: Option<u32>)
    ensures
        match parse_two_byte_u32(b0, b1) {
            Some(v) => r == Some(v as u32) && v < 100,
            None => r is None,
        },
{
    if 48 <= b0 && b0 <= 57 && 48 <= b1 && b1 <= 57 {
        Some(((b0 - 48) as u32) * 10 + (b1 - 48) as u32)
    } else if b0 == 43 && 48 <= b1 && b1 <= 57 {
        Some((b1 - 48) as u32)
    } else {
        None
    }
}

/// Parse the expiry date from an OCC symbol `ROOT YYMMDD C|P STRIKE(8)`,
/// reading the date from the end so compact and space-padded roots both
/// work: `"QCOM260508P00120000"` gives `"2026-05-08"`. Needs at least 15
/// bytes; checks only that the month is 1–12 and the day 1–31.
pub fn parse_occ_expiry(occ: &str) -> (r: Option<String>)
    ensures
        match spec_parse_occ_expiry(occ.spec_bytes()) {
            Some(e) => r matches Some(s) && s@ == e,
            None => r is None,
        },
{
    let bytes = occ.as_bytes();
    if bytes.len() < 15 {
        return None;
    }
    let ds = bytes.len() - 15;
    let yy = match two_byte_u32(bytes[ds], bytes[ds + 1]) {
        Some(v) => v,
        None => return None,
    };
    let mm = match two_byte_u32(bytes[ds + 2], bytes[ds + 3]) {
        Some(v) => v,
        None => return None,
    };
    let dd = match two_byte_u32(bytes[ds + 4], bytes[ds + 5]) {
        Some(v) => v,
        None => return None,
    };
    if mm < 1 || mm > 12 || dd < 1 || dd > 31 {
        return None;
    }
    let mut out = String::new();
    push_char(&mut out, '2');
    push_char(&mut out, '0');
    push_zero_padded(&mut out, yy as u64, 2);
    push_char(&mut out, '-');
    push_zero_padded(&mut out, mm as u64, 2);
    push_char(&mut out, '-');
    push_zero_padded(&mut out, dd as u64, 2);
    proof {
        assert(out@ =~= iso_expiry(yy as nat, mm as nat, dd as nat));
    }
    Some(out)
}

// ─── Builder ─────────────────────────────────────────────────────────────────

/// The symbol [`occ_symbol`] builds: root left-aligned in six columns, two
/// digits each for year, month and day, `C` or `P`, and the strike in
/// thousandths zero-padded to eight digits.
pub open spec fn spec_occ_symbol(
    underlying: Seq<char>,
    yy: nat,
    mm: nat,
    dd: nat,
    is_call: bool,
    strike_thousandths: nat,
) -> Seq<char> {
    space_pad_right(underlying, 6) + zero_pad(dec(yy), 2) + zero_pad(dec(mm), 2) + zero_pad(dec(dd), 2)
        + seq![if is_call { 'C' } else { 'P' }] + zero_pad(dec(strike_thousandths), 8)
}

/// Build an OCC option symbol from its components.
///
/// * `underlying` — ticker, e.g. `"AAPL"` (padded to 6 chars)
/// * `expiry_yy/mm/dd` — two-digit year, month, day of expiry
/// * `is_call` — `true` for call, `false` for put
/// * `strike_thousandths` — strike in thousandths of a dollar, e.g. `150000` → `"00150000"`
pub fn occ_symbol(
    underlying: &str,
    expiry_yy: u32,
    expiry_mm: u32,
    expiry_dd: u32,
    is_call: bool,
    strike_thousandths: u64,
) -> (r: String)
    ensures
        r@ == spec_occ_symbol(
            underlying@,
            expiry_yy as nat,
            expiry_mm as nat,
            expiry_dd as nat,
            is_call,
            strike_thousandths as nat,
        ),
{
    let mut out = String::from_str(underlying);
    let n = underlying.unicode_len();
    let mut k = n;
    while k < 6
        invariant
            n <= k,
            k <= 6 || k == n,
            n == underlying@.len(),
            out@ == underlying@ + repeat_char(' ', (k - n) as nat),
        decreases 6 - k,
    {
        push_char(&mut out, ' ');
        proof {
            assert(repeat_char(' ', (k - n) as nat).push(' ') =~= repeat_char(' ', (k + 1 - n) as nat));
        }
        k = k + 1;
    }
    proof {
        if n >= 6 {
            assert(out@ =~= space_pad_right(underlying@, 6));
        } else {
            assert(out@ =~= space_pad_right(underlying@, 6));
        }
    }
    push_zero_padded(&mut out, expiry_yy as u64, 2);
    push_zero_padded(&mut out, expiry_mm as u64, 2);
    push_zero_padded(&mut out, expiry_dd as u64, 2);
    push_char(&mut out, if is_call { 'C' } else { 'P' });
    push_zero_padded(&mut out, strike_thousandths, 8);
    proof {
        assert(out@ =~= spec_occ_symbol(
            underlying@,
            expiry_yy as nat,
            expiry_mm as nat,
            expiry_dd as nat,
            is_call,
            strike_thousandths as nat,
        ));
    }
    out
}

// ─── Laws ────────────────────────────────────────────────────────────────────

proof fn lemma_digit_is_ascii(c: char)
    requires
        is_digit_char(c),
    ensures
        '\0' <= c <= '\u{7f}',
{
}

proof fn lemma_trim_padded(u: Seq<char>, k: nat)
    requires
        u.len() >= 1,
        !is_ascii_space(u[0]),
        !is_ascii_space(u.last()),
    ensures
        trim(u + repeat_char(' ', k)) == u,
    decreases k,
{
    let p = u + repeat_char(' ', k);
    assert(p[0] == u[0]);
    assert(trim_start(p) == p);
    if k == 0 {
        assert(p =~= u);
    } else {
        assert(p.drop_last() =~= u + repeat_char(' ', (k - 1) as nat));
        lemma_trim_padded(u, (k - 1) as nat);
        assert(trim_start(u + repeat_char(' ', (k - 1) as nat)) == u + repeat_char(' ', (k - 1) as nat)) by {
            assert((u + repeat_char(' ', (k - 1) as nat))[0] == u[0]);
        }
    }
}

/// The expiry string that parsing a built symbol yields.
pub open spec fn built_expiry_str(yy: nat, mm: nat, dd: nat) -> Seq<char> {
    seq!['2', '0'] + zero_pad(dec(yy), 2) + seq!['-'] + zero_pad(dec(mm), 2) + seq!['-'] + zero_pad(dec(dd), 2)
}

/// Round trip: every symbol built by [`occ_symbol`] from valid components
/// (a non-blank ASCII root without surrounding whitespace, a real expiry day
/// in 2000–2099 and a strike below 100 000.000) parses back to exactly those
/// components.
pub proof fn lemma_occ_symbol_round_trip(
    underlying: Seq<char>,
    yy: nat,
    mm: nat,
    dd: nat,
    is_call: bool,
    strike_thousandths: nat,
)
    requires
        underlying.len() >= 1,
        vstd::utf8::is_ascii_chars(underlying),
        !is_ascii_space(underlying[0]),
        !is_ascii_space(underlying.last()),
        yy < 100,
        mm < 100,
        dd < 100,
        strike_thousandths < 100000000,
        is_valid_date(2000 + yy as int, mm as int, dd as int),
    ensures
        spec_parse_occ(spec_occ_symbol(underlying, yy, mm, dd, is_call, strike_thousandths)) == Some(
            OccView {
                root: underlying,
                year: 2000 + yy as int,
                month: mm as int,
                day: dd as int,
                expiry_str: built_expiry_str(yy, mm, dd),
                is_call,
                strike_thousandths,
            },
        ),
{
    let p = space_pad_right(underlying, 6);
    let y = zero_pad(dec(yy), 2);
    let m = zero_pad(dec(mm), 2);
    let d = zero_pad(dec(dd), 2);
    let tc = seq![if is_call { 'C' } else { 'P' }];
    let k = zero_pad(dec(strike_thousandths), 8);
    reveal_with_fuel(pow10, 9);
    lemma_zero_pad_digits(yy, 2);
    lemma_zero_pad_digits(mm, 2);
    lemma_zero_pad_digits(dd, 2);
    lemma_zero_pad_digits(strike_thousandths, 8);
    let s = spec_occ_symbol(underlying, yy, mm, dd, is_call, strike_thousandths);
    assert(s == p + y + m + d + tc + k);
    let pl = p.len() as int;
    assert(pl >= 6);
    assert(s.len() == pl + 15);
    let t = s.len() - 9;
    assert(t == pl + 6);
    let ds = t - 6;
    assert(s[t] == tc[0]);
    assert(s.subrange(ds, t) =~= y + m + d);
    assert(s.subrange(t + 1, s.len() as int) =~= k);
    assert(s.subrange(ds, ds + 2) =~= y);
    assert(s.subrange(ds + 2, ds + 4) =~= m);
    assert(s.subrange(ds + 4, ds + 6) =~= d);
    assert(s.subrange(0, ds) =~= p);
    assert(all_digits(y + m + d)) by {
        assert forall|i: int| 0 <= i < 6 implies is_digit_char(#[trigger] (y + m + d)[i]) by {
            if i < 2 {
                assert((y + m + d)[i] == y[i]);
            } else if i < 4 {
                assert((y + m + d)[i] == m[i - 2]);
            } else {
                assert((y + m + d)[i] == d[i - 4]);
            }
        }
    }
    if underlying.len() >= 6 {
        lemma_trim_padded(underlying, 0);
        assert(p =~= underlying + repeat_char(' ', 0));
    } else {
        lemma_trim_padded(underlying, (6 - underlying.len()) as nat);
    }
    assert(vstd::utf8::is_ascii_chars(s)) by {
        assert forall|i: int| 0 <= i < s.len() implies '\0' <= #[trigger] s[i] <= '\u{7f}' by {
            if i < pl {
                if i < underlying.len() {
                    assert(s[i] == underlying[i]);
                } else {
                    assert(s[i] == ' ');
                }
            } else if i < pl + 2 {
                assert(s[i] == y[i - pl]);
                lemma_digit_is_ascii(y[i - pl]);
            } else if i < pl + 4 {
                assert(s[i] == m[i - pl - 2]);
                lemma_digit_is_ascii(m[i - pl - 2]);
            } else if i < pl + 6 {
                assert(s[i] == d[i - pl - 4]);
                lemma_digit_is_ascii(d[i - pl - 4]);
            } else if i == pl + 6 {
                assert(s[i] == tc[0]);
            } else {
                assert(s[i] == k[i - pl - 7]);
                lemma_digit_is_ascii(k[i - pl - 7]);
            }
        }
    }
    assert(built_expiry_str(yy, mm, dd) =~= seq!['2', '0'] + s.subrange(ds, ds + 2) + seq!['-'] + s.subrange(
        ds + 2,
        ds + 4,
    ) + seq!['-'] + s.subrange(ds + 4, ds + 6));
}

} // verus!
