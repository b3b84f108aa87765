//! Properties of the library as a whole, stated over the contracts' models.

use vstd::prelude::*;
use crate::availability::{back_in_stock, currency_update_spec, db_status, price_drop, tally, CheckProcessingResult};
use crate::bot_detection::{challenge_spec, product_data_spec};
use crate::fetch::{headless_step_spec, http_step_spec};
use crate::domain_settings::{applied, clamped, duration_valid, interval_valid, update_valid, DomainSettings, UpdateDomainSettingsParams};
use crate::renormalize::{action_counts, lemma_action_counts, priced_count, PriceCheck};
use crate::jsscan::{json_char_at, json_shaped, norm_emit, norm_out, norm_state, NormState, StringContext};
use crate::price::{clean_price, is_price_char, price_char_pred, price_minor_spec};
use crate::shopify::{target_spec, variant_index, ShopifyVariant};
use crate::status::{status_str, AvailabilityStatus};
use crate::text::{ascii_lower_char, eq_ignore_ascii_case_spec};
use crate::uniqlo::{l2_index, target_l2_spec, L2};

verus! {

/// No average is a price drop from itself, two averages are never each a
/// drop from the other, and a missing average never makes a drop.
pub proof fn law_price_drop_strict(a: Option<i64>, b: Option<i64>)
    ensures
        !price_drop(a, a),
        price_drop(a, b) ==> !price_drop(b, a),
        (a is None || b is None) ==> !price_drop(a, b),
{
}

/// A first check is never a return to stock; a return to stock always ends
/// in stock and never starts there.
pub proof fn law_back_in_stock(previous: Option<AvailabilityStatus>, new_status: AvailabilityStatus)
    ensures
        !back_in_stock(None, new_status),
        back_in_stock(previous, new_status) ==> new_status == AvailabilityStatus::InStock,
        previous == Some(AvailabilityStatus::InStock) ==> !back_in_stock(previous, new_status),
{
}

/// Every status is read back as itself from the string it is stored as.
pub proof fn law_status_round_trip(s: AvailabilityStatus)
    ensures
        db_status(status_str(s)) == s,
{
    reveal_strlit("in_stock");
    reveal_strlit("out_of_stock");
    reveal_strlit("back_order");
    reveal_strlit("unknown");
    assert("in_stock"@.len() == 8);
    assert("out_of_stock"@.len() == 12);
    assert("back_order"@.len() == 10);
    assert("unknown"@.len() == 7);
}

/// In the counters of a bulk check, successes and failures make up all
/// results, and returns to stock and price drops are counted among the
/// successes only.
pub proof fn law_summary_counts(results: Seq<CheckProcessingResult>)
    ensures
        tally(results).0 + tally(results).1 == results.len(),
        0 <= tally(results).2 <= tally(results).0,
        0 <= tally(results).3 <= tally(results).0,
{
    crate::availability::lemma_tally_bounds(results);
}

/// Settings read back what an accepted update wrote: once an update whose
/// values are all in range is applied to the stored settings, reading them
/// (which clamps) gives every value the update gave.
pub proof fn law_settings_read_back(stored: DomainSettings, params: UpdateDomainSettingsParams)
    requires
        update_valid(params),
    ensures
        params.background_check_enabled matches Some(v) ==> clamped(applied(stored, params)).background_check_enabled == v,
        params.background_check_interval_minutes matches Some(v) ==> clamped(applied(stored, params)).background_check_interval_minutes == v,
        params.enable_headless_browser matches Some(v) ==> clamped(applied(stored, params)).enable_headless_browser == v,
        params.allow_manual_verification matches Some(v) ==> clamped(applied(stored, params)).allow_manual_verification == v,
        params.session_cache_duration_days matches Some(v) ==> clamped(applied(stored, params)).session_cache_duration_days == v,
{
}

/// Read settings are always in range: a stored interval or session
/// duration below its range reads as the least value, one above as the
/// greatest, one within as itself; the flags read as stored. Reading twice
/// changes nothing, and the defaults are read back unchanged.
pub proof fn law_clamped_in_range(s: DomainSettings)
    ensures
        interval_valid(clamped(s).background_check_interval_minutes),
        duration_valid(clamped(s).session_cache_duration_days),
        clamped(clamped(s)) == clamped(s),
        s.background_check_interval_minutes < 1 ==> clamped(s).background_check_interval_minutes == 1,
        s.background_check_interval_minutes > 10080 ==> clamped(s).background_check_interval_minutes == 10080,
        interval_valid(s.background_check_interval_minutes)
            ==> clamped(s).background_check_interval_minutes == s.background_check_interval_minutes,
        s.session_cache_duration_days < 1 ==> clamped(s).session_cache_duration_days == 1,
        s.session_cache_duration_days > 90 ==> clamped(s).session_cache_duration_days == 90,
        duration_valid(s.session_cache_duration_days)
            ==> clamped(s).session_cache_duration_days == s.session_cache_duration_days,
        clamped(s).background_check_enabled == s.background_check_enabled,
        clamped(s).enable_headless_browser == s.enable_headless_browser,
        clamped(s).allow_manual_verification == s.allow_manual_verification,
        clamped(DomainSettings {
            background_check_enabled: false,
            background_check_interval_minutes: 60,
            enable_headless_browser: true,
            allow_manual_verification: false,
            session_cache_duration_days: 14,
        }) == (DomainSettings {
            background_check_enabled: false,
            background_check_interval_minutes: 60,
            enable_headless_browser: true,
            allow_manual_verification: false,
            session_cache_duration_days: 14,
        }),
{
}

proof fn lemma_filter_all(s: Seq<char>)
    requires
        forall|i: int| 0 <= i < s.len() ==> is_price_char(#[trigger] s[i]),
    ensures
        s.filter(price_char_pred()) == s,
    decreases s.len(),
{
    reveal(Seq::filter);
    if s.len() > 0 {
        lemma_filter_all(s.drop_last());
        assert(s.drop_last().push(s.last()) =~= s);
    }
}

/// Cleaning a price text twice is cleaning it once, so a price reads the
/// same from its text and from its cleaned text.
pub proof fn law_price_cleaning(s: Seq<char>, multiplier: i64)
    ensures
        clean_price(clean_price(s)) == clean_price(s),
        price_minor_spec(clean_price(s), multiplier) == price_minor_spec(s, multiplier),
{
    let c = clean_price(s);
    assert forall|i: int| 0 <= i < c.len() implies is_price_char(#[trigger] c[i]) by {
        s.lemma_filter_pred(price_char_pred(), i);
    }
    lemma_filter_all(c);
}

/// A page that carries product data is never taken for a challenge,
/// whatever its status and size.
pub proof fn law_product_data_not_challenge(status: u16, lower: Seq<char>, byte_len: int)
    requires
        product_data_spec(lower),
    ensures
        !challenge_spec(status, lower, byte_len),
{
}

proof fn lemma_norm_json(s: Seq<char>, n: int)
    requires
        0 <= n <= s.len(),
        json_shaped(s),
    ensures
        norm_out(s, n) == s.take(n),
        norm_state(s, n).ctx != StringContext::SingleQuoted,
    decreases n,
{
    if n > 0 {
        lemma_norm_json(s, n - 1);
        let st = norm_state(s, n - 1);
        assert(json_char_at(s, n - 1, st));
        assert(norm_emit(s, n - 1, st) =~= seq![s[n - 1]]);
        assert(s.take(n) =~= s.take(n - 1).push(s[n - 1]));
    }
}

/// Normalisation leaves JSON as it is: a text with the shape of JSON in
/// every character is its own normal form.
pub proof fn law_normalize_keeps_json(s: Seq<char>)
    requires
        json_shaped(s),
    ensures
        norm_out(s, s.len() as int) == s,
{
    lemma_norm_json(s, s.len() as int);
    assert(s.take(s.len() as int) =~= s);
}

/// Without color and size codes the first Uniqlo variant is targeted.
pub proof fn law_uniqlo_first_variant(l2s: Seq<L2>)
    requires
        l2s.len() > 0,
    ensures
        target_l2_spec(l2s, None, None) == Ok::<int, (int, Seq<char>)>(0),
{
}

proof fn lemma_variant_index(vs: Seq<ShopifyVariant>, vid: i64, i: int)
    ensures
        variant_index(vs, vid, i) matches Some(k) ==> i <= k < vs.len() && vs[k].id == vid,
    decreases vs.len() - i,
{
    if !(i < 0 || i >= vs.len()) && vs[i].id != vid {
        lemma_variant_index(vs, vid, i + 1);
    }
}

/// Shopify targeting gives the first variant without an id, and a variant
/// with exactly the requested id otherwise.
pub proof fn law_shopify_target(vs: Seq<ShopifyVariant>, vid: i64)
    ensures
        vs.len() > 0 ==> target_spec(vs, None) == Ok::<int, (int, Seq<char>)>(0),
        target_spec(vs, Some(vid)) matches Ok(i) ==> 0 <= i < vs.len() && vs[i].id == vid,
{
    lemma_variant_index(vs, vid, 0);
}

/// Comparing while ignoring ASCII case is reflexive and symmetric.
pub proof fn law_eq_ignore_ascii_case(a: Seq<char>, b: Seq<char>)
    ensures
        eq_ignore_ascii_case_spec(a, a),
        eq_ignore_ascii_case_spec(a, b) == eq_ignore_ascii_case_spec(b, a),
{
}

/// A product without a currency takes the scraped one, a stored currency
/// equal to the scraped one up to ASCII case is never rewritten, and
/// nothing is stored without a scraped currency.
pub proof fn law_currency_update(existing: Option<Seq<char>>, scraped: Option<Seq<char>>, url: Option<Seq<char>>)
    ensures
        scraped is None ==> currency_update_spec(existing, scraped, url) is None,
        existing is None ==> currency_update_spec(existing, scraped, url) == scraped,
        (existing matches Some(e) && scraped matches Some(s) && eq_ignore_ascii_case_spec(e, s))
            ==> currency_update_spec(existing, scraped, url) is None,
{
}

/// Fetching takes the fast path whenever it can: a page that is no
/// challenge is returned as it came, whatever the settings. The fallbacks
/// are taken only when allowed: without the headless browser no browser is
/// started, and manual verification is reached only when it is allowed.
pub proof fn law_fetch_fallbacks(
    body: Option<(Seq<char>, int)>,
    status: Option<(u16, Seq<char>)>,
    failure: Option<Seq<char>>,
    enable_headless: bool,
    allow_manual: bool,
    headless: Result<Seq<char>, (int, Seq<char>)>,
)
    ensures
        body matches Some((b, n)) ==> (!challenge_spec(200, crate::text::unicode_lower(b), n)
            ==> http_step_spec(body, status, failure, enable_headless, allow_manual) == (0int, b, (0int, Seq::<char>::empty()))),
        !enable_headless ==> http_step_spec(body, status, failure, enable_headless, allow_manual).0 != 2,
        http_step_spec(body, status, failure, enable_headless, allow_manual).0 != 3,
        !allow_manual ==> headless_step_spec(headless, allow_manual).0 != 3,
        headless matches Ok(h) ==> headless_step_spec(headless, allow_manual) == (0int, h, (0int, Seq::<char>::empty())),
{
}

/// A re-normalization pass counts every check with a price and a currency
/// in exactly one of its buckets (converted, same currency, cleared), and
/// no other check: the buckets add up to the priced checks, which are at
/// most all the checks.
pub proof fn law_renormalize_buckets(checks: Seq<PriceCheck>, preferred: Seq<char>)
    ensures
        action_counts(checks, preferred).0 + action_counts(checks, preferred).1
            + action_counts(checks, preferred).2 == priced_count(checks),
        priced_count(checks) <= checks.len(),
{
    lemma_action_counts(checks, preferred);
}

} // verus!
