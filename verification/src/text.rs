//! Byte-level text construction for the console: appending fixed phrases and
//! rendering unsigned integers in decimal, plain or zero-padded to a width.

use vstd::prelude::*;

verus! {

use vstd::string::StringSliceAdditionalSpecFns;

/// The ASCII digit for `d`, meaningful for `0 <= d <= 9`.
pub open spec fn spec_digit(d: int) -> u8 {
    (48 + d) as u8
}

/// The shortest decimal rendering of `n` (one digit for `n < 10`),
/// most significant digit first.
pub open spec fn spec_decimal(n: int) -> Seq<u8>
    decreases n,
{
    if n < 10 {
        seq![spec_digit(n)]
    } else {
        spec_decimal(n / 10) + seq![spec_digit(n % 10)]
    }
}

/// The last `width` decimal digits of `n`, zero-padded on the left when `n`
/// has fewer digits than `width`.
pub open spec fn spec_padded_decimal(n: int, width: nat) -> Seq<u8>
    decreases width,
{
    if width == 0 {
        Seq::empty()
    } else {
        spec_padded_decimal(n / 10, (width - 1) as nat) + seq![spec_digit(n % 10)]
    }
}

/// The numeric value of a big-endian string of ASCII digits.
pub open spec fn spec_digits_value(s: Seq<u8>) -> int
    decreases s.len(),
{
    if s.len() == 0 {
        0
    } else {
        spec_digits_value(s.drop_last()) * 10 + (s.last() - 48)
    }
}

/// An ASCII decimal digit.
pub open spec fn spec_is_digit(b: u8) -> bool {
    48 <= b <= 57
}

/// A string of ASCII decimal digits.
pub open spec fn spec_digits_only(s: Seq<u8>) -> bool {
    forall|i: int| 0 <= i < s.len() ==> spec_is_digit(#[trigger] s[i])
}

/// The value of a digit string is never negative.
pub proof fn lemma_digits_value_nonneg(s: Seq<u8>)
    requires
        spec_digits_only(s),
    ensures
        spec_digits_value(s) >= 0,
    decreases s.len(),
{
    if s.len() > 0 {
        assert(spec_digits_only(s.drop_last()));
        lemma_digits_value_nonneg(s.drop_last());
    }
}

/// Dropping trailing digits never increases the value of a digit string.
pub proof fn lemma_digits_value_take(s: Seq<u8>, n: int)
    requires
        spec_digits_only(s),
        0 <= n <= s.len(),
    ensures
        spec_digits_value(s.take(n)) <= spec_digits_value(s),
    decreases s.len() - n,
{
    if n < s.len() {
        let t = s.take(n + 1);
        assert(t.drop_last() =~= s.take(n));
        assert(spec_digits_only(t));
        assert(spec_digits_only(s.take(n)));
        lemma_digits_value_nonneg(s.take(n));
        assert(spec_digits_value(t) == spec_digits_value(s.take(n)) * 10 + (t.last() - 48));
        lemma_digits_value_take(s, n + 1);
    } else {
        assert(s.take(n) =~= s);
    }
}

/// A zero-padded rendering always has exactly `width` characters.
pub proof fn lemma_padded_decimal_len(n: int, width: nat)
    ensures
        spec_padded_decimal(n, width).len() == width,
    decreases width,
{
    if width > 0 {
        lemma_padded_decimal_len(n / 10, (width - 1) as nat);
    }
}

/// `10^e`.
pub open spec fn spec_pow10(e: nat) -> int
    decreases e,
{
    if e == 0 {
        1
    } else {
        10 * spec_pow10((e - 1) as nat)
    }
}

pub proof fn lemma_pow10_pos(e: nat)
    ensures
        spec_pow10(e) >= 1,
    decreases e,
{
    if e > 0 {
        lemma_pow10_pos((e - 1) as nat);
    }
}

/// A zero-padded rendering of a value below `10^width` is a digit string
/// that reads back as exactly that value.
pub proof fn lemma_padded_decimal_value(n: int, width: nat)
    requires
        0 <= n < spec_pow10(width),
    ensures
        spec_digits_only(spec_padded_decimal(n, width)),
        spec_digits_value(spec_padded_decimal(n, width)) == n,
    decreases width,
{
    let p = spec_padded_decimal(n, width);
    if width == 0 {
        assert(p =~= Seq::<u8>::empty());
    } else {
        lemma_padded_decimal_value(n / 10, (width - 1) as nat);
        let q = spec_padded_decimal(n / 10, (width - 1) as nat);
        assert(p.drop_last() =~= q);
        assert(p.last() == spec_digit(n % 10));
        assert(spec_digits_only(p));
        assert(spec_digits_value(p) == spec_digits_value(q) * 10 + (n % 10));
    }
}

/// Appends the UTF-8 bytes of `s` to `out`.
pub fn push_text(out: &mut Vec<u8>, s: &str)
    ensures
        final(out)@ == old(out)@ + s.spec_bytes(),
{
    let mut bytes = vstd::slice::slice_to_vec(s.as_bytes());
    out.append(&mut bytes);
}

/// Appends the decimal rendering of `n` to `out`.
pub fn push_decimal(out: &mut Vec<u8>, n: u64)
    ensures
        final(out)@ == old(out)@ + spec_decimal(n as int),
    decreases n,
{
    if n < 10 {
        out.push(48 + n as u8);
    } else {
        assert(n / 10 < n) by (nonlinear_arith)
            requires n >= 10,
        ;
        push_decimal(out, n / 10);
        out.push(48 + (n % 10) as u8);
    }
}

/// Appends exactly `width` decimal digits to `out`: the value of `n`,
/// zero-padded, or its low digits when it does not fit.
pub fn push_padded_decimal(out: &mut Vec<u8>, n: u32, width: usize)
    ensures
        final(out)@ == old(out)@ + spec_padded_decimal(n as int, width as nat),
    decreases width,
{
    if width > 0 {
        push_padded_decimal(out, n / 10, width - 1);
        out.push(48 + (n % 10) as u8);
    }
}

} // verus!
