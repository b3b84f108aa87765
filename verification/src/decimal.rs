//! Exact decimal arithmetic through `rust_decimal`, on plain values.
//!
//! A decimal is carried as its parts: an integer mantissa and a scale, the
//! value being `mantissa / 10^scale`.

use vstd::prelude::*;
use std::str::FromStr;
use crate::currency::pow10;

verus! {

/// Largest mantissa magnitude a `Decimal` holds (96 bits).
pub open spec fn mantissa_limit() -> int {
    0x1_0000_0000_0000_0000_0000_0000
}

/// Whether parts are those of a representable `Decimal`.
pub open spec fn in_range(m: int, scale: int) -> bool {
    -mantissa_limit() < m < mantissa_limit() && 0 <= scale <= 28
}

/// Whether a character is an ASCII digit.
pub open spec fn is_digit(c: char) -> bool {
    '0' <= c && c <= '9'
}

/// The number of decimal points in `s`.
pub open spec fn count_points(s: Seq<char>) -> nat
    decreases s.len(),
{
    if s.len() == 0 {
        0
    } else {
        count_points(s.drop_last()) + if s.last() == '.' { 1nat } else { 0nat }
    }
}

/// The number of digits in `s`.
pub open spec fn count_digits(s: Seq<char>) -> nat
    decreases s.len(),
{
    if s.len() == 0 {
        0
    } else {
        count_digits(s.drop_last()) + if is_digit(s.last()) { 1nat } else { 0nat }
    }
}

/// A plain decimal numeral: digits with at most one decimal point and at
/// least one digit.
pub open spec fn plain_decimal(s: Seq<char>) -> bool {
    &&& forall|i: int| 0 <= i < s.len() ==> is_digit(#[trigger] s[i]) || s[i] == '.'
    &&& count_points(s) <= 1
    &&& count_digits(s) >= 1
}

/// The integer spelled by the digits of `s`, decimal points skipped.
pub open spec fn digits_value(s: Seq<char>) -> int
    decreases s.len(),
{
    if s.len() == 0 {
        0
    } else if is_digit(s.last()) {
        digits_value(s.drop_last()) * 10 + (s.last() as int - '0' as int)
    } else {
        digits_value(s.drop_last())
    }
}

/// The number of digits after the decimal point of `s` (0 without one).
pub open spec fn fraction_digits(s: Seq<char>) -> nat
    decreases s.len(),
{
    if s.len() == 0 || count_points(s) == 0 {
        0
    } else if s.last() == '.' {
        0
    } else {
        fraction_digits(s.drop_last()) + 1
    }
}

/// Banker's rounding of `m / 10^scale` to an integer (ties to even), for
/// `m >= 0`.
pub open spec fn round_half_even(m: int, scale: nat) -> int {
    if scale == 0 {
        m
    } else {
        let p = pow10(scale);
        let q = m / p;
        let rem = m % p;
        let half = 5 * pow10((scale - 1) as nat);
        if rem > half || (rem == half && q % 2 == 1) {
            q + 1
        } else {
            q
        }
    }
}

/// The name for what `Decimal::from_str` gives back, as parts.
pub uninterp spec fn decimal_parse(s: Seq<char>) -> Option<(i128, u32)>;

/// The name for what `Decimal::checked_mul` gives back, as parts.
pub uninterp spec fn decimal_product(am: i128, ascale: u32, bm: i128, bscale: u32) -> Option<(i128, u32)>;

/// `Decimal::from_str`, returning the parsed value's mantissa and scale.
///
/// Stated: the result is named `decimal_parse`; every parsed value is
/// representable; without a '-' in the text the mantissa is not negative;
/// and a plain numeral shorter than 18 characters parses exactly, to the
/// integer of its digits and the count of its fraction digits (the
/// library's fast path for short input, which keeps trailing zeros).
/// Not stated: how longer input, underscores, signs and exponents parse.
#[verifier::external_body]
pub(crate) fn decimal_from_str(s: &str) -> (r: Option<(i128, u32)>)
    ensures
        r == decimal_parse(s@),
        r matches Some((m, sc)) ==> in_range(m as int, sc as int),
        !s@.contains('-') ==> (r matches Some((m, sc)) ==> m >= 0),
        plain_decimal(s@) && s@.len() < 18 ==> r == Some(
            (digits_value(s@) as i128, fraction_digits(s@) as u32),
        ),
{
    rust_decimal::Decimal::from_str(s).ok().map(|d| (d.mantissa(), d.scale()))
}

/// `Decimal::checked_mul` on two decimals given by their parts.
///
/// Stated: the result is named `decimal_product`; it is representable; a
/// zero operand gives zero with scale 0; when the exact product fits in 96
/// bits and the scales add up to at most 28 the result is exactly that
/// product with the summed scale; operands that are not negative give a
/// result that is not negative.
/// Not stated: how the library rescales larger products, and when it
/// reports overflow (`None`).
#[verifier::external_body]
pub(crate) fn decimal_checked_mul(am: i128, ascale: u32, bm: i128, bscale: u32) -> (r: Option<(i128, u32)>)
    requires
        in_range(am as int, ascale as int),
        in_range(bm as int, bscale as int),
    ensures
        r == decimal_product(am, ascale, bm, bscale),
        r matches Some((m, sc)) ==> in_range(m as int, sc as int),
        am * bm == 0 ==> r == Some((0i128, 0u32)),
        am * bm != 0 && -mantissa_limit() < am * bm < mantissa_limit() && ascale + bscale <= 28
            ==> r == Some(((am * bm) as i128, (ascale + bscale) as u32)),
        am >= 0 && bm >= 0 ==> (r matches Some((m, sc)) ==> m >= 0),
{
    let a = rust_decimal::Decimal::from_i128_with_scale(am, ascale);
    let b = rust_decimal::Decimal::from_i128_with_scale(bm, bscale);
    a.checked_mul(b).map(|d| (d.mantissa(), d.scale()))
}

/// `Decimal::round` (banker's rounding to no fractional digits) on a
/// decimal given by its parts.
///
/// Stated: for a value that is not negative, the result has scale 0 and
/// mantissa `round_half_even(m, scale)`.
#[verifier::external_body]
pub(crate) fn decimal_round(m: i128, scale: u32) -> (r: (i128, u32))
    requires
        in_range(m as int, scale as int),
        m >= 0,
    ensures
        r == (round_half_even(m as int, scale as nat) as i128, 0u32),
{
    let d = rust_decimal::Decimal::from_i128_with_scale(m, scale).round();
    (d.mantissa(), d.scale())
}


/// Powers of ten grow with the exponent.
pub proof fn lemma_pow10_mono(a: nat, b: nat)
    requires
        a <= b,
    ensures
        1 <= pow10(a) <= pow10(b),
    decreases b,
{
    if b > a {
        lemma_pow10_mono(a, (b - 1) as nat);
    } else if a > 0 {
        lemma_pow10_mono((a - 1) as nat, (a - 1) as nat);
    }
}

/// The digits of `s` spell a number below ten to the count of its digits,
/// and there are no more digits than characters.
pub proof fn lemma_digits_value_bound(s: Seq<char>)
    ensures
        0 <= digits_value(s) < pow10(count_digits(s)),
        count_digits(s) <= s.len(),
    decreases s.len(),
{
    if s.len() > 0 {
        lemma_digits_value_bound(s.drop_last());
        let prev = digits_value(s.drop_last());
        let p = pow10(count_digits(s.drop_last()));
        if is_digit(s.last()) {
            let d = s.last() as int - '0' as int;
            assert(prev * 10 + d < p * 10) by (nonlinear_arith)
                requires
                    0 <= prev < p,
                    0 <= d < 10,
            ;
        }
    }
}

/// There are no more fraction digits than characters.
pub proof fn lemma_fraction_digits_le(s: Seq<char>)
    ensures
        fraction_digits(s) <= s.len(),
    decreases s.len(),
{
    if s.len() > 0 && count_points(s) != 0 && s.last() != '.' {
        lemma_fraction_digits_le(s.drop_last());
    }
}

/// Zero rounds to zero.
pub proof fn lemma_round_zero(scale: nat)
    ensures
        round_half_even(0, scale) == 0,
{
    if scale > 0 {
        lemma_pow10_mono(0, scale);
        lemma_pow10_mono(0, (scale - 1) as nat);
        let p = pow10(scale);
        assert(0int / p == 0 && 0int % p == 0) by (nonlinear_arith)
            requires
                p >= 1,
        ;
    }
}

} // verus!
