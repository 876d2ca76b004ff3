//! Reconciling the bot's stored positions with the broker's at start-up.
//!
//! Records the broker no longer holds are stale and dropped; broker
//! positions not yet stored are imported. An option position is stored
//! under its underlying root (the first six bytes of its OCC symbol,
//! trimmed), with the OCC symbol and its expiry kept alongside.

use crate::alpaca::occ::{parse_occ_expiry, spec_parse_occ_expiry};
use crate::backtesting::holding_period::{is_whitespace, lemma_skip_from, skip_whitespace, unicode_whitespace};
use crate::text::{str_equal, string_views};
use vstd::prelude::*;
use vstd::string::StringSliceAdditionalSpecFns;
use vstd::utf8::{decode_utf8, encode_utf8};

verus! {

broadcast use vstd::utf8::encode_utf8_decode_utf8;

/// `s` without its trailing whitespace.
pub open spec fn trim_whitespace_end(s: Seq<char>) -> Seq<char>
    decreases s.len(),
{
    if s.len() > 0 && unicode_whitespace(s.last()) {
        trim_whitespace_end(s.drop_last())
    } else {
        s
    }
}

/// `str::trim`: `s` without leading and trailing whitespace.
pub open spec fn trim_whitespace(s: Seq<char>) -> Seq<char> {
    trim_whitespace_end(skip_whitespace(s))
}

proof fn lemma_trim_end_until(t: Seq<char>, j: int)
    requires
        0 <= j <= t.len(),
        forall|k: int| j <= k < t.len() ==> unicode_whitespace(#[trigger] t[k]),
        j == 0 || !unicode_whitespace(t[j - 1]),
    ensures
        trim_whitespace_end(t) == t.subrange(0, j),
    decreases t.len() - j,
{
    if t.len() == j {
        assert(t.subrange(0, j) =~= t);
    } else {
        assert(unicode_whitespace(t.last()));
        let u = t.drop_last();
        assert forall|k: int| j <= k < u.len() implies unicode_whitespace(#[trigger] u[k]) by {
            assert(u[k] == t[k]);
        }
        if j > 0 {
            assert(u[j - 1] == t[j - 1]);
        }
        lemma_trim_end_until(u, j);
        assert(u.subrange(0, j) =~= t.subrange(0, j));
    }
}

/// `s` with leading and trailing whitespace removed (`str::trim`).
pub fn trim(s: &str) -> (r: &str)
    ensures
        r@ == trim_whitespace(s@),
{
    let n = s.unicode_len();
    let mut i: usize = 0;
    while i < n && is_whitespace(s.get_char(i))
        invariant
            n == s@.len(),
            i <= n,
            forall|k: int| 0 <= k < i ==> unicode_whitespace(#[trigger] s@[k]),
        decreases n - i,
    {
        i = i + 1;
    }
    proof {
        lemma_skip_from(s@, i as int);
    }
    let mut j: usize = n;
    while j > i && is_whitespace(s.get_char(j - 1))
        invariant
            n == s@.len(),
            i <= j <= n,
            forall|k: int| j <= k < n ==> unicode_whitespace(#[trigger] s@[k]),
        decreases j - i,
    {
        j = j - 1;
    }
    proof {
        let t = s@.subrange(i as int, n as int);
        assert forall|k: int| j - i <= k < t.len() implies unicode_whitespace(#[trigger] t[k]) by {
            assert(t[k] == s@[i + k]);
        }
        if j > i {
            assert(t[j - i - 1] == s@[j - 1]);
        }
        lemma_trim_end_until(t, j - i);
        assert(t.subrange(0, j - i) =~= s@.subrange(i as int, j as int));
    }
    s.substring_char(i, j)
}

/// The text of the first `n` bytes of `s`.
pub open spec fn byte_prefix(s: Seq<char>, n: int) -> Seq<char> {
    decode_utf8(encode_utf8(s).subrange(0, n))
}

/// How a broker position is stored: the key symbol, the OCC symbol of an
/// option, and the option's expiry as `YYYY-MM-DD`.
pub struct PositionKey {
    pub symbol: String,
    pub occ_symbol: Option<String>,
    pub expires_at: Option<String>,
}

/// The stored form of a broker position of `asset_class` and `symbol`:
/// an option with an OCC symbol of at least 18 bytes is keyed by its
/// trimmed six-byte root; anything else by its own symbol.
pub open spec fn position_key_of(
    asset_class: Seq<char>,
    symbol: Seq<char>,
) -> (Seq<char>, Option<Seq<char>>, Option<Seq<char>>) {
    if asset_class == "us_option"@ && encode_utf8(symbol).len() >= 18 {
        (trim_whitespace(byte_prefix(symbol, 6)), Some(symbol), spec_parse_occ_expiry(encode_utf8(symbol)))
    } else {
        (symbol, None, None)
    }
}

/// The view of a [`PositionKey`].
pub open spec fn key_view(k: PositionKey) -> (Seq<char>, Option<Seq<char>>, Option<Seq<char>>) {
    (
        k.symbol@,
        match k.occ_symbol {
            Some(o) => Some(o@),
            None => None,
        },
        match k.expires_at {
            Some(e) => Some(e@),
            None => None,
        },
    )
}

/// The stored form of a broker position. An option symbol of 18 bytes or
/// more must have a character boundary after byte 6 (its root is cut there).
pub fn position_key(asset_class: &str, symbol: &str) -> (r: PositionKey)
    requires
        asset_class@ == "us_option"@ && symbol.spec_bytes().len() >= 18 ==> vstd::utf8::is_char_boundary(
            symbol.spec_bytes(),
            6,
        ),
    ensures
        key_view(r) == position_key_of(asset_class@, symbol@),
{
    let byte_len = symbol.as_bytes().len();
    if str_equal(asset_class, "us_option") && byte_len >= 18 {
        let (head, _) = symbol.split_at(6);
        proof {
            assert(encode_utf8(head@) == encode_utf8(symbol@).subrange(0, 6));
            assert(decode_utf8(encode_utf8(head@)) == head@);
        }
        let root = trim(head);
        let expiry = parse_occ_expiry(symbol);
        PositionKey {
            symbol: String::from_str(root),
            occ_symbol: Some(String::from_str(symbol)),
            expires_at: expiry,
        }
    } else {
        PositionKey { symbol: String::from_str(symbol), occ_symbol: None, expires_at: None }
    }
}

/// The entries of `items` that do not occur in `others`, in order.
pub open spec fn absent(items: Seq<Seq<char>>, others: Seq<Seq<char>>) -> Seq<Seq<char>>
    decreases items.len(),
{
    if items.len() == 0 {
        Seq::empty()
    } else {
        let rest = absent(items.drop_last(), others);
        if others.contains(items.last()) {
            rest
        } else {
            rest.push(items.last())
        }
    }
}

fn contains_str(v: &Vec<String>, s: &str) -> (b: bool)
    ensures
        b == string_views(v@).contains(s@),
{
    let mut i: usize = 0;
    while i < v.len()
        invariant
            i <= v@.len(),
            forall|k: int| 0 <= k < i ==> string_views(v@)[k] != s@,
        decreases v@.len() - i,
    {
        if str_equal(v[i].as_str(), s) {
            assert(string_views(v@)[i as int] == s@);
            return true;
        }
        i = i + 1;
    }
    false
}

/// The symbols of `items` that `others` does not hold, in order: the stale
/// stored records (stored symbols against the broker's), or the positions
/// to import (broker keys against the stored symbols).
pub fn absent_from(items: &Vec<String>, others: &Vec<String>) -> (r: Vec<String>)
    ensures
        string_views(r@) == absent(string_views(items@), string_views(others@)),
{
    let mut out: Vec<String> = Vec::new();
    let mut i: usize = 0;
    while i < items.len()
        invariant
            i <= items@.len(),
            string_views(out@) == absent(string_views(items@).subrange(0, i as int), string_views(others@)),
        decreases items@.len() - i,
    {
        proof {
            assert(string_views(items@).subrange(0, i + 1).drop_last() =~= string_views(items@).subrange(
                0,
                i as int,
            ));
        }
        if !contains_str(others, items[i].as_str()) {
            let ghost prev = out@;
            out.push(items[i].clone());
            proof {
                assert(string_views(out@) =~= string_views(prev).push(items@[i as int]@));
            }
        }
        i = i + 1;
    }
    assert(string_views(items@).subrange(0, items@.len() as int) =~= string_views(items@));
    out
}

/// Law: after reconciliation nothing is both stale and kept: every entry
/// reported absent is one of the items and occurs nowhere in the others.
pub proof fn lemma_absent_entries(items: Seq<Seq<char>>, others: Seq<Seq<char>>, k: int)
    requires
        0 <= k < absent(items, others).len(),
    ensures
        items.contains(absent(items, others)[k]),
        !others.contains(absent(items, others)[k]),
    decreases items.len(),
{
    let rest = absent(items.drop_last(), others);
    if k < rest.len() {
        lemma_absent_entries(items.drop_last(), others, k);
        let x = absent(items, others)[k];
        assert(items.drop_last().contains(x));
        let w = choose|w: int| 0 <= w < items.drop_last().len() && items.drop_last()[w] == x;
        assert(items[w] == x);
    } else {
        assert(items[items.len() - 1] == items.last());
    }
}

} // verus!
