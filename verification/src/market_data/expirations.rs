//! Option expiration dates as the chain endpoint lists them.

use crate::calendar::{timestamp_utc_date, utc_date_of_timestamp};
use crate::text::{dec, push_char, push_decimal, push_zero_padded, string_views, zero_pad};
use vstd::prelude::*;

verus! {

/// A year as the `%Y` format writes it: four digits with leading zeros for
/// 0–9999, otherwise a sign followed by at least four digits.
pub open spec fn year_text(y: int) -> Seq<char> {
    if 0 <= y <= 9999 {
        zero_pad(dec(y as nat), 4)
    } else if y > 9999 {
        seq!['+'] + dec(y as nat)
    } else {
        seq!['-'] + zero_pad(dec((-y) as nat), 4)
    }
}

/// A date as the `%Y-%m-%d` format writes it.
pub open spec fn iso_date_text(t: (i32, u32, u32)) -> Seq<char> {
    year_text(t.0 as int) + seq!['-'] + zero_pad(dec(t.1 as nat), 2) + seq!['-'] + zero_pad(dec(t.2 as nat), 2)
}

/// Render a date as `YYYY-MM-DD` (`%Y-%m-%d`).
pub fn iso_date_string(t: (i32, u32, u32)) -> (r: String)
    ensures
        r@ == iso_date_text(t),
{
    let mut out = String::new();
    let y = t.0;
    if 0 <= y && y <= 9999 {
        push_zero_padded(&mut out, y as u64, 4);
    } else if y > 9999 {
        push_char(&mut out, '+');
        push_decimal(&mut out, y as u64);
    } else {
        push_char(&mut out, '-');
        let magnitude: u64 = (-(y as i64)) as u64;
        push_zero_padded(&mut out, magnitude, 4);
    }
    push_char(&mut out, '-');
    push_zero_padded(&mut out, t.1 as u64, 2);
    push_char(&mut out, '-');
    push_zero_padded(&mut out, t.2 as u64, 2);
    proof {
        assert(out@ =~= iso_date_text(t));
    }
    out
}

/// Expiration date strings for the listed timestamps: each timestamp's
/// UTC date as `YYYY-MM-DD`, in order, skipping those out of range.
pub open spec fn expiration_texts(timestamps: Seq<i64>) -> Seq<Seq<char>>
    decreases timestamps.len(),
{
    if timestamps.len() == 0 {
        Seq::empty()
    } else {
        let rest = expiration_texts(timestamps.drop_last());
        match timestamp_utc_date(timestamps.last()) {
            Some(t) => rest.push(iso_date_text(t)),
            None => rest,
        }
    }
}

/// The expiration dates of an option chain from its Unix timestamps, as
/// `YYYY-MM-DD` strings in the listed order; timestamps outside the
/// calendar's range are skipped.
pub fn expiration_dates(timestamps: &Vec<i64>) -> (r: Vec<String>)
    ensures
        string_views(r@) == expiration_texts(timestamps@),
{
    let mut out: Vec<String> = Vec::new();
    let mut i: usize = 0;
    while i < timestamps.len()
        invariant
            i <= timestamps@.len(),
            string_views(out@) == expiration_texts(timestamps@.subrange(0, i as int)),
        decreases timestamps@.len() - i,
    {
        proof {
            assert(timestamps@.subrange(0, i + 1).drop_last() =~= timestamps@.subrange(0, i as int));
        }
        let d = utc_date_of_timestamp(timestamps[i]);
        match d {
            Some(t) => {
                let ghost prev = out@;
                out.push(iso_date_string(t));
                proof {
                    assert(string_views(out@) =~= string_views(prev).push(iso_date_text(t)));
                }
            },
            None => {},
        }
        i = i + 1;
    }
    assert(timestamps@.subrange(0, timestamps@.len() as int) =~= timestamps@);
    out
}

} // verus!
