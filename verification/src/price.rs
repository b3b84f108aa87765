//! Price parsing: prices from offer data normalised to minor currency units
//! with exact decimal arithmetic, and currency inference from store URLs.

use vstd::prelude::*;
use crate::currency::{exponent_spec, minor_unit_multiplier, pow10};
use crate::decimal::{
    count_digits, decimal_checked_mul, decimal_from_str, decimal_parse, decimal_product,
    decimal_round, digits_value, fraction_digits, in_range, lemma_digits_value_bound,
    lemma_fraction_digits_le, lemma_pow10_mono, lemma_round_zero, mantissa_limit, plain_decimal,
    round_half_even,
};
use crate::json::{as_str_spec, get_spec, opt_view, scalar_text, value_as_string, JsonValue};
use crate::text::{
    chars_of, contains_str, ends_with_str, has_sub, starts_with_str, string_of, to_lower,
    unicode_lower,
};
use crate::url::{parse_url, url_parse};

verus! {

/// Price information extracted from Schema.org data
#[derive(Debug, Clone)]
pub struct PriceInfo {
    pub price_minor_units: Option<i64>,
    pub price_currency: Option<String>,
    pub raw_price: Option<String>,
}

/// The view of a `PriceInfo`: minor units, currency code, raw price text.
pub open spec fn price_view(p: PriceInfo) -> (Option<i64>, Option<Seq<char>>, Option<Seq<char>>) {
    (p.price_minor_units, opt_view(p.price_currency), opt_view(p.raw_price))
}

impl Default for PriceInfo {
    /// No price, no currency, no raw text.
    fn default() -> (r: Self)
        ensures
            price_view(r) == (None::<i64>, None::<Seq<char>>, None::<Seq<char>>),
    {
        PriceInfo { price_minor_units: None, price_currency: None, raw_price: None }
    }
}

/// The characters kept from a price text: ASCII digits and the point.
pub open spec fn is_price_char(c: char) -> bool {
    ('0' <= c && c <= '9') || c == '.'
}

/// `is_price_char` as a predicate value.
pub open spec fn price_char_pred() -> spec_fn(char) -> bool {
    |c: char| is_price_char(c)
}

/// A price text with everything but digits and points removed.
pub open spec fn clean_price(s: Seq<char>) -> Seq<char> {
    s.filter(price_char_pred())
}

/// The factor to minor units: the currency's, or 100 without a currency.
pub open spec fn multiplier_for(code: Option<Seq<char>>) -> i64 {
    match code {
        Some(c) => {
            let e = exponent_spec(c);
            if e == 0 {
                1
            } else if e == 3 {
                1000
            } else {
                100
            }
        },
        None => 100,
    }
}

/// Minor units of an exact product `v / 10^scale`, rounded half to even;
/// `None` when that exceeds `i64`.
pub open spec fn exact_minor_units(v: int, scale: nat) -> Option<i64> {
    let r = round_half_even(v, scale);
    if r <= i64::MAX {
        Some(r as i64)
    } else {
        None
    }
}

/// Minor units of a rounded product: `None` when it exceeds `i64`.
pub open spec fn rounded_minor_units(m: i128, scale: u32) -> Option<i64> {
    let r = round_half_even(m as int, scale as nat);
    if r <= i64::MAX {
        Some(r as i64)
    } else {
        None
    }
}

/// Minor units of a parsed decimal times the multiplier.
pub open spec fn product_minor_units(m: i128, scale: u32, multiplier: i64) -> Option<i64> {
    match decimal_product(m, scale, multiplier as i128, 0u32) {
        Some((pm, ps)) => rounded_minor_units(pm, ps),
        None => None,
    }
}

/// Minor units of a price text, for a multiplier.
pub open spec fn price_minor_spec(s: Seq<char>, multiplier: i64) -> Option<i64> {
    let c = clean_price(s);
    if c.len() == 0 {
        None
    } else {
        match decimal_parse(c) {
            Some((m, sc)) => product_minor_units(m, sc, multiplier),
            None => None,
        }
    }
}

/// The view of an optional string slice.
pub open spec fn ostr_ref(o: Option<&str>) -> Option<Seq<char>> {
    match o {
        Some(s) => Some(s@),
        None => None,
    }
}

proof fn lemma_pow10_pos(e: nat)
    ensures
        pow10(e) >= 1,
        e > 0 ==> pow10(e) >= 10,
    decreases e,
{
    if e > 0 {
        lemma_pow10_pos((e - 1) as nat);
    }
}

proof fn lemma_round_bounds(m: int, scale: nat)
    requires
        m >= 0,
    ensures
        0 <= round_half_even(m, scale) <= m,
{
    if scale > 0 {
        lemma_pow10_pos(scale);
        lemma_pow10_pos((scale - 1) as nat);
        let p = pow10(scale);
        let q = m / p;
        let rem = m % p;
        let half = 5 * pow10((scale - 1) as nat);
        assert(m == p * q + rem && 0 <= rem < p && q >= 0) by (nonlinear_arith)
            requires
                p >= 10,
                m >= 0,
                q == m / p,
                rem == m % p,
        ;
        if rem > half || (rem == half && q % 2 == 1) {
            assert(q + 1 <= m) by (nonlinear_arith)
                requires
                    m == p * q + rem,
                    rem >= 1,
                    q >= 0,
                    p >= 10,
            ;
        } else {
            assert(q <= m) by (nonlinear_arith)
                requires
                    m == p * q + rem,
                    rem >= 0,
                    q >= 0,
                    p >= 10,
            ;
        }
    }
}

/// Keep only the ASCII digits and decimal points of a price text.
pub fn clean_price_text(price_str: &str) -> (r: String)
    ensures
        r@ == clean_price(price_str@),
{
    let cs = chars_of(price_str);
    let mut kept: Vec<char> = Vec::new();
    let mut i: usize = 0;
    while i < cs.len()
        invariant
            i <= cs@.len(),
            cs@ == price_str@,
            kept@ == cs@.take(i as int).filter(price_char_pred()),
        decreases cs.len() - i,
    {
        let c = cs[i];
        proof {
            assert(cs@.take(i + 1) =~= cs@.take(i as int).push(c));
            cs@.take(i as int).lemma_filter_push(c, price_char_pred());
        }
        if ('0' <= c && c <= '9') || c == '.' {
            kept.push(c);
        }
        i = i + 1;
    }
    assert(cs@.take(cs@.len() as int) =~= cs@);
    string_of(kept.as_slice())
}

/// Minor units of a rounded, non-negative decimal product: the banker's
/// rounding of `m / 10^scale`, or `None` when that exceeds `i64::MAX`.
pub fn minor_units_from_product(m: i128, scale: u32) -> (r: Option<i64>)
    requires
        in_range(m as int, scale as int),
        m >= 0,
    ensures
        r == rounded_minor_units(m, scale),
{
    let (rm, _rs) = decimal_round(m, scale);
    proof {
        lemma_round_bounds(m as int, scale as nat);
    }
    if rm <= i64::MAX as i128 {
        Some(rm as i64)
    } else {
        None
    }
}

/// Minor units of a parsed non-negative decimal (`m / 10^scale`) times a
/// currency multiplier, with exact decimal arithmetic and banker's rounding.
/// When the exact product fits in a decimal, the result is the rounding of
/// the exact product.
pub fn minor_units_from_decimal(m: i128, scale: u32, multiplier: i64) -> (r: Option<i64>)
    requires
        in_range(m as int, scale as int),
        m >= 0,
        multiplier == 1 || multiplier == 100 || multiplier == 1000,
    ensures
        r == product_minor_units(m, scale, multiplier),
        m * multiplier < mantissa_limit() ==> r == exact_minor_units(m * multiplier, scale as nat),
{
    proof {
        if m == 0 {
            lemma_round_zero(scale as nat);
            lemma_round_zero(0);
        }
    }
    let product = decimal_checked_mul(m, scale, multiplier as i128, 0);
    match product {
        Some((pm, ps)) => minor_units_from_product(pm, ps),
        None => None,
    }
}

/// Parse a price string to minor units (smallest currency unit) using exact decimal arithmetic.
///
/// Handles formats like "789.00", "1,234.56", "789", "789.9": every
/// character but ASCII digits and '.' is dropped first. Multiplies by the
/// correct factor for the given currency (100 for USD, 1 for JPY, 1000 for
/// KWD; 100 without a currency) and rounds half to even. `None` when
/// nothing numeric is left, the rest is not a decimal, or the result does
/// not fit.
pub fn parse_price_to_minor_units(price_str: &str, currency_code: Option<&str>) -> (r: Option<i64>)
    ensures
        r == price_minor_spec(price_str@, multiplier_for(ostr_ref(currency_code))),
        plain_decimal(clean_price(price_str@)) && clean_price(price_str@).len() < 18 ==> r
            == exact_minor_units(
            digits_value(clean_price(price_str@)) * multiplier_for(ostr_ref(currency_code)),
            fraction_digits(clean_price(price_str@)),
        ),
{
    let cleaned = clean_price_text(price_str);
    if cleaned.as_str().is_empty() {
        return None;
    }
    let parsed = decimal_from_str(cleaned.as_str());
    let multiplier: i64 = match currency_code {
        Some(code) => minor_unit_multiplier(code),
        None => 100,
    };
    proof {
        reveal_with_fuel(pow10, 4);
        assert(multiplier == multiplier_for(ostr_ref(currency_code)));
    }
    match parsed {
        Some((m, sc)) => {
            proof {
                let c = cleaned@;
                if plain_decimal(c) && c.len() < 18 {
                    lemma_digits_value_bound(c);
                    lemma_pow10_mono(count_digits(c), 17);
                    reveal_with_fuel(pow10, 18);
                    assert(digits_value(c) * multiplier < mantissa_limit()) by (nonlinear_arith)
                        requires
                            0 <= digits_value(c) < 100000000000000000,
                            1 <= multiplier <= 1000,
                    ;
                    lemma_fraction_digits_le(c);
                }
                assert(!cleaned@.contains('-')) by {
                    if cleaned@.contains('-') {
                        let k = choose|k: int| 0 <= k < cleaned@.len() && cleaned@[k] == '-';
                        price_str@.lemma_filter_pred(price_char_pred(), k);
                    }
                }
            }
            minor_units_from_decimal(m, sc, multiplier)
        },
        None => None,
    }
}

/// Whether `s` ends with `suffix`.
pub open spec fn ends_with(s: Seq<char>, suffix: Seq<char>) -> bool {
    suffix.len() <= s.len() && s.skip(s.len() - suffix.len()) == suffix
}

/// Whether `s` starts with `prefix`.
pub open spec fn starts_with(s: Seq<char>, prefix: Seq<char>) -> bool {
    prefix.len() <= s.len() && s.take(prefix.len() as int) == prefix
}

/// The currency a host's domain suffix stands for: the first matching row
/// of .com.au/.au (AUD), .co.uk/.uk (GBP), .ca (CAD), .co.nz/.nz (NZD),
/// .eu (EUR), .com/.us (USD).
pub open spec fn domain_currency(host: Seq<char>) -> Option<Seq<char>> {
    if ends_with(host, ".com.au"@) || ends_with(host, ".au"@) {
        Some("AUD"@)
    } else if ends_with(host, ".co.uk"@) || ends_with(host, ".uk"@) {
        Some("GBP"@)
    } else if ends_with(host, ".ca"@) {
        Some("CAD"@)
    } else if ends_with(host, ".co.nz"@) || ends_with(host, ".nz"@) {
        Some("NZD"@)
    } else if ends_with(host, ".eu"@) {
        Some("EUR"@)
    } else if ends_with(host, ".com"@) || ends_with(host, ".us"@) {
        Some("USD"@)
    } else {
        None
    }
}

/// Whether a lowercased path holds a locale segment: `/xx-yy/` anywhere,
/// `/xx-yy-` anywhere, or `/xx-yy/` at the start.
pub open spec fn locale_in_path(path: Seq<char>, slash: Seq<char>, dash: Seq<char>) -> bool {
    has_sub(path, slash) || has_sub(path, dash) || starts_with(path, slash)
}

/// The currency of the first locale found in a lowercased path, in the
/// order en-au, en-nz, en-gb, en-uk, en-ca, en-us, fr-ca, en-eu.
pub open spec fn path_currency(path: Seq<char>) -> Option<Seq<char>> {
    if locale_in_path(path, "/en-au/"@, "/en-au-"@) {
        Some("AUD"@)
    } else if locale_in_path(path, "/en-nz/"@, "/en-nz-"@) {
        Some("NZD"@)
    } else if locale_in_path(path, "/en-gb/"@, "/en-gb-"@) {
        Some("GBP"@)
    } else if locale_in_path(path, "/en-uk/"@, "/en-uk-"@) {
        Some("GBP"@)
    } else if locale_in_path(path, "/en-ca/"@, "/en-ca-"@) {
        Some("CAD"@)
    } else if locale_in_path(path, "/en-us/"@, "/en-us-"@) {
        Some("USD"@)
    } else if locale_in_path(path, "/fr-ca/"@, "/fr-ca-"@) {
        Some("CAD"@)
    } else if locale_in_path(path, "/en-eu/"@, "/en-eu-"@) {
        Some("EUR"@)
    } else {
        None
    }
}

/// The currency inferred from a URL's host.
pub open spec fn url_domain_currency(url: Seq<char>) -> Option<Seq<char>> {
    match url_parse(url) {
        Ok(u) => match u.host {
            Some(h) => domain_currency(h),
            None => None,
        },
        Err(_) => None,
    }
}

/// The currency inferred from a URL's lowercased path.
pub open spec fn url_path_currency(url: Seq<char>) -> Option<Seq<char>> {
    match url_parse(url) {
        Ok(u) => path_currency(unicode_lower(u.path)),
        Err(_) => None,
    }
}

/// The first of three options that is present.
pub open spec fn first_some(a: Option<Seq<char>>, b: Option<Seq<char>>, c: Option<Seq<char>>) -> Option<Seq<char>> {
    if a is Some {
        a
    } else if b is Some {
        b
    } else {
        c
    }
}

/// What `get_price_from_offer` gives for an offer and a page URL.
pub open spec fn offer_price_spec(offer: JsonValue, url: Seq<char>) -> (Option<i64>, Option<Seq<char>>, Option<Seq<char>>) {
    let raw = scalar_text(get_spec(offer, "price"@));
    let api = as_str_spec(get_spec(offer, "priceCurrency"@));
    let currency = if raw is Some {
        first_some(url_path_currency(url), url_domain_currency(url), api)
    } else {
        None
    };
    let minor = match raw {
        Some(p) => price_minor_spec(p, multiplier_for(currency)),
        None => None,
    };
    (minor, currency, raw)
}

/// The currency for a host's domain suffix (see `domain_currency`).
pub fn currency_for_host(host: &str) -> (r: Option<String>)
    ensures
        opt_view(r) == domain_currency(host@),
{
    let h = chars_of(host);
    let h = h.as_slice();
    if ends_with_str(h, ".com.au") || ends_with_str(h, ".au") {
        Some("AUD".to_string())
    } else if ends_with_str(h, ".co.uk") || ends_with_str(h, ".uk") {
        Some("GBP".to_string())
    } else if ends_with_str(h, ".ca") {
        Some("CAD".to_string())
    } else if ends_with_str(h, ".co.nz") || ends_with_str(h, ".nz") {
        Some("NZD".to_string())
    } else if ends_with_str(h, ".eu") {
        Some("EUR".to_string())
    } else if ends_with_str(h, ".com") || ends_with_str(h, ".us") {
        Some("USD".to_string())
    } else {
        None
    }
}

fn has_locale(p: &[char], slash: &str, dash: &str) -> (r: bool)
    ensures
        r == locale_in_path(p@, slash@, dash@),
{
    contains_str(p, slash) || contains_str(p, dash) || starts_with_str(p, slash)
}

/// The currency of the first locale segment in a lowercased path (see
/// `path_currency`).
pub fn currency_for_path(path_lower: &str) -> (r: Option<String>)
    ensures
        opt_view(r) == path_currency(path_lower@),
{
    let p = chars_of(path_lower);
    let p = p.as_slice();
    if has_locale(p, "/en-au/", "/en-au-") {
        Some("AUD".to_string())
    } else if has_locale(p, "/en-nz/", "/en-nz-") {
        Some("NZD".to_string())
    } else if has_locale(p, "/en-gb/", "/en-gb-") {
        Some("GBP".to_string())
    } else if has_locale(p, "/en-uk/", "/en-uk-") {
        Some("GBP".to_string())
    } else if has_locale(p, "/en-ca/", "/en-ca-") {
        Some("CAD".to_string())
    } else if has_locale(p, "/en-us/", "/en-us-") {
        Some("USD".to_string())
    } else if has_locale(p, "/fr-ca/", "/fr-ca-") {
        Some("CAD".to_string())
    } else if has_locale(p, "/en-eu/", "/en-eu-") {
        Some("EUR".to_string())
    } else {
        None
    }
}

/// Infer currency from a store's domain TLD
///
/// Returns a currency code based on the domain's top-level domain.
/// Returns None if the URL does not parse, has no host, or the host doesn't
/// match a known pattern.
pub fn infer_currency_from_domain(url: &str) -> (r: Option<String>)
    ensures
        opt_view(r) == url_domain_currency(url@),
{
    match parse_url(url) {
        Ok(parsed) => match &parsed.host {
            Some(h) => currency_for_host(h.as_str()),
            None => None,
        },
        Err(_) => None,
    }
}

/// Infer currency from URL path locale patterns
///
/// Many multi-locale Shopify stores use paths like:
/// - /en-au/products/... → AUD
/// - /en-gb/products/... → GBP
/// - /en-us/products/... → USD
///
/// The path is lowercased first; the query string is not looked at.
pub fn infer_currency_from_path(url: &str) -> (r: Option<String>)
    ensures
        opt_view(r) == url_path_currency(url@),
{
    match parse_url(url) {
        Ok(parsed) => {
            let path = to_lower(parsed.path.as_str());
            currency_for_path(path.as_str())
        },
        Err(_) => None,
    }
}

/// Check if a URL contains a path-based locale pattern
/// (`infer_currency_from_path` finds a currency).
pub fn has_path_locale(url: &str) -> (r: bool)
    ensures
        r == (url_path_currency(url@) is Some),
{
    infer_currency_from_path(url).is_some()
}

/// Extract price info from an offer object
///
/// The raw price is the offer's "price" (a string as is, a number as its
/// text). Currency is determined in order of precedence, and only when a
/// raw price is present:
/// 1. Path-based locale (e.g., /en-au/ → AUD)
/// 2. Inferred from the store's domain TLD (e.g., .com.au → AUD)
/// 3. The offer's "priceCurrency" string
pub fn get_price_from_offer(offer: &JsonValue, url: &str) -> (r: PriceInfo)
    ensures
        price_view(r) == offer_price_spec(*offer, url@),
{
    let raw_price = match offer.get("price") {
        Some(p) => value_as_string(p),
        None => None,
    };
    let api_currency: Option<String> = match offer.get("priceCurrency") {
        Some(c) => match c.as_str() {
            Some(s) => Some(s.to_string()),
            None => None,
        },
        None => None,
    };
    let price_currency = if raw_price.is_some() {
        let from_path = infer_currency_from_path(url);
        if from_path.is_some() {
            from_path
        } else {
            let from_domain = infer_currency_from_domain(url);
            if from_domain.is_some() {
                from_domain
            } else {
                api_currency
            }
        }
    } else {
        None
    };
    let price_minor_units = match &raw_price {
        Some(p) => match &price_currency {
            Some(c) => parse_price_to_minor_units(p.as_str(), Some(c.as_str())),
            None => parse_price_to_minor_units(p.as_str(), None),
        },
        None => None,
    };
    PriceInfo { price_minor_units, price_currency, raw_price }
}

} // verus!
