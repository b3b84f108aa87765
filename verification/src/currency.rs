//! ISO 4217 currency exponents: how many decimal places a currency's minor
//! unit has, and the factor between major and minor units.

use vstd::prelude::*;
use crate::text::{chars_eq_str, chars_of, to_upper, unicode_upper};

verus! {

/// Whether an uppercase code names a currency with no fractional unit.
pub open spec fn is_zero_decimal(u: Seq<char>) -> bool {
    u == "JPY"@ || u == "KRW"@ || u == "VND"@
}

/// Whether an uppercase code names a currency with three decimal places.
pub open spec fn is_three_decimal(u: Seq<char>) -> bool {
    u == "KWD"@ || u == "BHD"@ || u == "OMR"@
}

/// The exponent of a currency code, compared after Unicode uppercasing.
pub open spec fn exponent_spec(code: Seq<char>) -> u32 {
    let u = unicode_upper(code);
    if is_zero_decimal(u) {
        0
    } else if is_three_decimal(u) {
        3
    } else {
        2
    }
}

/// Ten to the power `e`.
pub open spec fn pow10(e: nat) -> int
    decreases e,
{
    if e == 0 { 1 } else { 10 * pow10((e - 1) as nat) }
}

/// Return the number of decimal places for an ISO 4217 currency code.
///
/// - 0 for JPY, KRW, VND (no fractional unit)
/// - 3 for KWD, BHD, OMR
/// - 2 for everything else (USD, EUR, AUD, GBP, etc.)
///
/// The code is compared case-insensitively.
pub fn currency_exponent(code: &str) -> (r: u32)
    ensures
        r == exponent_spec(code@),
        r == 0 || r == 2 || r == 3,
{
    let upper = to_upper(code);
    let u = chars_of(upper.as_str());
    let u = u.as_slice();
    if chars_eq_str(u, "JPY") || chars_eq_str(u, "KRW") || chars_eq_str(u, "VND") {
        return 0;
    }
    if chars_eq_str(u, "KWD") || chars_eq_str(u, "BHD") || chars_eq_str(u, "OMR") {
        return 3;
    }
    2
}

/// Return 10^exponent for the given currency code.
///
/// - 1 for JPY/KRW/VND
/// - 1000 for KWD/BHD/OMR
/// - 100 for everything else
pub fn minor_unit_multiplier(code: &str) -> (r: i64)
    ensures
        r == pow10(exponent_spec(code@) as nat),
        r == 1 || r == 100 || r == 1000,
{
    let e = currency_exponent(code);
    proof {
        reveal_with_fuel(pow10, 4);
    }
    if e == 0 {
        1
    } else if e == 3 {
        1000
    } else {
        100
    }
}

} // verus!
