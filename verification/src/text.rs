//! Decimal rendering and small string helpers shared by the symbol builders
//! and the order path.

use vstd::prelude::*;

verus! {

/// The ASCII character for a decimal digit `d < 10`.
pub open spec fn digit_char(d: nat) -> char {
    ((d + 48) as u32) as char
}

/// Decimal rendering of a natural number, without leading zeros
/// (`0` renders as `"0"`).
pub open spec fn dec(n: nat) -> Seq<char>
    decreases n,
{
    if n < 10 {
        seq![digit_char(n)]
    } else {
        dec(n / 10).push(digit_char(n % 10))
    }
}

/// The character is an ASCII decimal digit.
pub open spec fn is_digit_char(c: char) -> bool {
    48 <= c as u32 <= 57
}

pub open spec fn digit_value(c: char) -> nat {
    (c as u32 - 48) as nat
}

pub open spec fn all_digits(s: Seq<char>) -> bool {
    forall|i: int| 0 <= i < s.len() ==> is_digit_char(#[trigger] s[i])
}

/// Big-endian value of a run of decimal digits.
pub open spec fn digits_value(s: Seq<char>) -> nat
    decreases s.len(),
{
    if s.len() == 0 {
        0
    } else {
        digits_value(s.drop_last()) * 10 + digit_value(s.last())
    }
}

/// `10^n`.
pub open spec fn pow10(n: nat) -> nat
    decreases n,
{
    if n == 0 {
        1
    } else {
        10 * pow10((n - 1) as nat)
    }
}

/// `10^n` grows with `n`, and `10^18` is below `u64::MAX / 10`.
pub proof fn lemma_pow10_le(a: nat, b: nat)
    requires
        a <= b,
    ensures
        pow10(a) <= pow10(b),
        pow10(a) >= 1,
    decreases b,
{
    if a < b {
        lemma_pow10_le(a, (b - 1) as nat);
    } else if a > 0 {
        lemma_pow10_le((a - 1) as nat, (a - 1) as nat);
    }
}

pub proof fn lemma_pow10_18()
    ensures
        pow10(18) == 1000000000000000000,
{
    reveal_with_fuel(pow10, 19);
}

/// `count` copies of the character `c`.
pub open spec fn repeat_char(c: char, count: nat) -> Seq<char> {
    Seq::new(count, |_i: int| c)
}

/// `s` left-padded with `'0'` up to at least `width` characters
/// (the `{:0width$}` format of an unsigned integer).
pub open spec fn zero_pad(s: Seq<char>, width: nat) -> Seq<char> {
    if s.len() >= width {
        s
    } else {
        repeat_char('0', (width - s.len()) as nat) + s
    }
}

/// `s` right-padded with spaces up to at least `width` characters
/// (the `{:<width$}` format of a string).
pub open spec fn space_pad_right(s: Seq<char>, width: nat) -> Seq<char> {
    if s.len() >= width {
        s
    } else {
        s + repeat_char(' ', (width - s.len()) as nat)
    }
}

/// Decimal rendering of a signed integer (`"-"` followed by the magnitude
/// for negative values).
pub open spec fn dec_int(n: int) -> Seq<char> {
    if n < 0 {
        seq!['-'] + dec((-n) as nat)
    } else {
        dec(n as nat)
    }
}

/// The character sequences of a sequence of string slices.
pub open spec fn str_views(v: Seq<&str>) -> Seq<Seq<char>> {
    v.map_values(|s: &str| s@)
}

/// The character sequences of a sequence of strings.
pub open spec fn string_views(v: Seq<String>) -> Seq<Seq<char>> {
    v.map_values(|s: String| s@)
}

/// Appends one character to a string (`String::push`).
#[verifier::external_body]
pub(crate) fn push_char(s: &mut String, c: char)
    ensures
        final(s)@ == old(s)@.push(c),
{
    s.push(c);
}

/// The length of a decimal rendering is at least one.
pub proof fn lemma_dec_len(n: nat)
    ensures
        dec(n).len() >= 1,
        n < 10 ==> dec(n).len() == 1,
        n >= 10 ==> dec(n).len() == dec(n / 10).len() + 1,
    decreases n,
{
    if n >= 10 {
        lemma_dec_len(n / 10);
    }
}

/// The ASCII character of a decimal digit.
pub fn digit_to_char(d: u8) -> (c: char)
    requires
        d < 10,
    ensures
        c == digit_char(d as nat),
{
    (d + 48) as char
}

/// Appends the decimal rendering of `n` to `out`.
pub fn push_decimal(out: &mut String, n: u64)
    ensures
        final(out)@ == old(out)@ + dec(n as nat),
    decreases n,
{
    if n >= 10 {
        push_decimal(out, n / 10);
    }
    let c = digit_to_char((n % 10) as u8);
    push_char(out, c);
    proof {
        if n >= 10 {
            assert(old(out)@ + dec(n as nat) =~= (old(out)@ + dec((n / 10) as nat)).push(c));
        } else {
            assert(old(out)@ + dec(n as nat) =~= old(out)@.push(c));
        }
    }
}

/// Number of characters in the decimal rendering of `n`.
pub fn decimal_len(n: u64) -> (r: usize)
    ensures
        r == dec(n as nat).len(),
        r <= 20,
    decreases n,
{
    proof {
        lemma_dec_len(n as nat);
    }
    if n < 10 {
        1
    } else {
        proof {
            lemma_pow10_19();
            lemma_dec_len_bound((n / 10) as nat, 19);
        }
        decimal_len(n / 10) + 1
    }
}

/// Appends `n` in decimal, left-padded with zeros to at least `width` characters.
pub fn push_zero_padded(out: &mut String, n: u64, width: usize)
    ensures
        final(out)@ == old(out)@ + zero_pad(dec(n as nat), width as nat),
{
    let len = decimal_len(n);
    let mut k = len;
    let ghost start = out@;
    while k < width
        invariant
            len <= k,
            k <= width || k == len,
            len == dec(n as nat).len(),
            out@ == start + repeat_char('0', (k - len) as nat),
        decreases width - k,
    {
        push_char(out, '0');
        proof {
            assert(repeat_char('0', (k - len) as nat).push('0') =~= repeat_char('0', (k + 1 - len) as nat));
        }
        k = k + 1;
    }
    push_decimal(out, n);
    proof {
        if len >= width {
            assert(repeat_char('0', 0) =~= Seq::<char>::empty());
            assert(out@ =~= start + zero_pad(dec(n as nat), width as nat));
        } else {
            assert(out@ =~= start + zero_pad(dec(n as nat), width as nat));
        }
    }
}

pub proof fn lemma_pow10_19()
    ensures
        pow10(19) == 10000000000000000000,
{
    reveal_with_fuel(pow10, 20);
}

/// A number below `10^k` (with `k >= 1`) has at most `k` decimal digits.
pub proof fn lemma_dec_len_bound(n: nat, k: nat)
    requires
        k >= 1,
        n < pow10(k),
    ensures
        dec(n).len() <= k,
    decreases n,
{
    lemma_dec_len(n);
    if n >= 10 {
        assert(pow10(k) == 10 * pow10((k - 1) as nat));
        if k == 1 {
            assert(pow10(0) == 1);
        } else {
            assert(n / 10 < pow10((k - 1) as nat));
            lemma_dec_len_bound(n / 10, (k - 1) as nat);
        }
    }
}

/// The decimal rendering consists of digits and reads back as `n`.
pub proof fn lemma_dec_digits(n: nat)
    ensures
        all_digits(dec(n)),
        digits_value(dec(n)) == n,
    decreases n,
{
    if n < 10 {
        assert(digit_char(n) as u32 == n + 48);
        assert(dec(n).drop_last() =~= Seq::<char>::empty());
        assert(digits_value(Seq::<char>::empty()) == 0);
        assert(digit_value(dec(n).last()) == n);
    } else {
        lemma_dec_digits(n / 10);
        let d = digit_char(n % 10);
        assert(d as u32 == n % 10 + 48);
        assert(dec(n).drop_last() =~= dec(n / 10));
        assert forall|i: int| 0 <= i < dec(n).len() implies is_digit_char(#[trigger] dec(n)[i]) by {
            if i < dec(n).len() - 1 {
                assert(dec(n)[i] == dec(n / 10)[i]);
            }
        }
    }
}

/// Leading zeros do not change the value of a run of digits.
pub proof fn lemma_leading_zeros(k: nat, s: Seq<char>)
    ensures
        digits_value(repeat_char('0', k) + s) == digits_value(s),
    decreases s.len(),
{
    if s.len() == 0 {
        assert(repeat_char('0', k) + s =~= repeat_char('0', k));
        lemma_zeros_value(k);
    } else {
        assert((repeat_char('0', k) + s).drop_last() =~= repeat_char('0', k) + s.drop_last());
        lemma_leading_zeros(k, s.drop_last());
    }
}

pub proof fn lemma_zeros_value(k: nat)
    ensures
        digits_value(repeat_char('0', k)) == 0,
    decreases k,
{
    if k > 0 {
        assert(repeat_char('0', k).drop_last() =~= repeat_char('0', (k - 1) as nat));
        lemma_zeros_value((k - 1) as nat);
    }
}

/// Zero-padded decimal rendering: all digits, reads back as `n`, and is
/// exactly `width` long when `n < 10^width`.
pub proof fn lemma_zero_pad_digits(n: nat, width: nat)
    ensures
        all_digits(zero_pad(dec(n), width)),
        digits_value(zero_pad(dec(n), width)) == n,
        zero_pad(dec(n), width).len() >= width,
        width >= 1 && n < pow10(width) ==> zero_pad(dec(n), width).len() == width,
{
    lemma_dec_digits(n);
    if dec(n).len() < width {
        let z = repeat_char('0', (width - dec(n).len()) as nat);
        lemma_leading_zeros((width - dec(n).len()) as nat, dec(n));
        assert forall|i: int| 0 <= i < (z + dec(n)).len() implies is_digit_char(#[trigger] (z + dec(n))[i]) by {
            if i >= z.len() {
                assert((z + dec(n))[i] == dec(n)[i - z.len()]);
            }
        }
    }
    if width >= 1 && n < pow10(width) {
        lemma_dec_len_bound(n, width);
    }
}

/// Appends the decimal rendering of the signed integer `n` to `out`.
pub fn push_signed_decimal(out: &mut String, n: i64)
    ensures
        final(out)@ == old(out)@ + dec_int(n as int),
{
    if n < 0 {
        push_char(out, '-');
        let magnitude: u64 = if n == i64::MIN {
            9223372036854775808u64
        } else {
            (-n) as u64
        };
        push_decimal(out, magnitude);
        proof {
            assert(final(out)@ =~= old(out)@ + dec_int(n as int));
        }
    } else {
        push_decimal(out, n as u64);
    }
}

/// Character-wise equality of two string slices.
pub fn str_equal(a: &str, b: &str) -> (r: bool)
    ensures
        r == (a@ == b@),
{
    let n = a.unicode_len();
    if n != b.unicode_len() {
        return false;
    }
    let mut i: usize = 0;
    while i < n
        invariant
            n == a@.len(),
            n == b@.len(),
            i <= n,
            forall|k: int| 0 <= k < i ==> a@[k] == b@[k],
        decreases n - i,
    {
        if a.get_char(i) != b.get_char(i) {
            return false;
        }
        i = i + 1;
    }
    assert(a@ =~= b@);
    true
}

} // verus!
