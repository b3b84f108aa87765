//! Properties of the page readers and store adapters, stated on their
//! inputs: the words a page holds, the JSON members it carries, the codes a
//! URL names, the suffix of a host.

use vstd::prelude::*;
use crate::bot_detection::challenge_spec;
use crate::gtm::inferred_status;
use crate::json::{as_bool_spec, as_str_spec, get_spec, JsonValue};
use crate::next_data::availability_text;
use crate::price::domain_currency;
use crate::status::AvailabilityStatus;
use crate::text::{has_sub, unicode_lower};
use crate::uniqlo::{l2_index, l2_matches, target_l2_spec, L2};

verus! {

// ---------------------------------------------------------------------------
// Uniqlo variant choice
// ---------------------------------------------------------------------------

proof fn lemma_l2_index_found(l2s: Seq<L2>, color: Option<Seq<char>>, size: Option<Seq<char>>, k: int)
    ensures
        l2_index(l2s, color, size, k) matches Some(i) ==> k <= i < l2s.len() && l2_matches(l2s[i], color, size),
        l2_index(l2s, color, size, k) matches Some(i) ==> forall|j: int| k <= j < i ==> !l2_matches(#[trigger] l2s[j], color, size),
    decreases l2s.len() - k,
{
    if !(k < 0 || k >= l2s.len()) && !l2_matches(l2s[k], color, size) {
        lemma_l2_index_found(l2s, color, size, k + 1);
    }
}

proof fn lemma_l2_index_exists(l2s: Seq<L2>, color: Option<Seq<char>>, size: Option<Seq<char>>, k: int, j: int)
    requires
        0 <= k <= j < l2s.len(),
        l2_matches(l2s[j], color, size),
    ensures
        l2_index(l2s, color, size, k) is Some,
    decreases j - k,
{
    if !l2_matches(l2s[k], color, size) {
        lemma_l2_index_exists(l2s, color, size, k + 1, j);
    }
}

/// The Uniqlo variant a check reads is one the URL names: when the search
/// succeeds, the chosen variant has the given color code (if one is given)
/// and the given size code (if one is given), and no earlier variant has
/// both. When some variant has every given code, the search succeeds.
pub proof fn law_uniqlo_variant_has_given_codes(l2s: Seq<L2>, color: Option<Seq<char>>, size: Option<Seq<char>>)
    ensures
        target_l2_spec(l2s, color, size) matches Ok(i) ==> {
            &&& 0 <= i < l2s.len()
            &&& color matches Some(c) ==> l2s[i].color_display_code@ == c
            &&& size matches Some(z) ==> l2s[i].size_display_code@ == z
        },
        target_l2_spec(l2s, color, size) matches Ok(i) ==> forall|j: int| 0 <= j < i ==> !(
            (color matches Some(c) ==> (#[trigger] l2s[j]).color_display_code@ == c)
            && (size matches Some(z) ==> l2s[j].size_display_code@ == z)),
        (exists|j: int| 0 <= j < l2s.len()
            && (color matches Some(c) ==> (#[trigger] l2s[j]).color_display_code@ == c)
            && (size matches Some(z) ==> l2s[j].size_display_code@ == z)) ==> target_l2_spec(l2s, color, size) is Ok,
{
    lemma_l2_index_found(l2s, color, size, 0);
    if exists|j: int| 0 <= j < l2s.len()
        && (color matches Some(c) ==> (#[trigger] l2s[j]).color_display_code@ == c)
        && (size matches Some(z) ==> l2s[j].size_display_code@ == z) {
        let j = choose|j: int| 0 <= j < l2s.len()
            && (color matches Some(c) ==> (#[trigger] l2s[j]).color_display_code@ == c)
            && (size matches Some(z) ==> l2s[j].size_display_code@ == z);
        assert(l2_matches(l2s[j], color, size));
        lemma_l2_index_exists(l2s, color, size, 0, j);
    }
}

// ---------------------------------------------------------------------------
// Add-to-cart buttons
// ---------------------------------------------------------------------------

/// A page whose lowercased text says "add to cart" is in stock.
pub proof fn law_add_to_cart_in_stock(html: Seq<char>)
    ensures
        has_sub(unicode_lower(html), "add to cart"@) ==> inferred_status(html) == AvailabilityStatus::InStock,
{
}

/// A page whose lowercased text says "add to bag" is in stock.
pub proof fn law_add_to_bag_in_stock(html: Seq<char>)
    ensures
        has_sub(unicode_lower(html), "add to bag"@) ==> inferred_status(html) == AvailabilityStatus::InStock,
{
}

/// A page whose lowercased text says "add to basket" is in stock.
pub proof fn law_add_to_basket_in_stock(html: Seq<char>)
    ensures
        has_sub(unicode_lower(html), "add to basket"@) ==> inferred_status(html) == AvailabilityStatus::InStock,
{
}

/// A page whose lowercased text says "buy now" is in stock.
pub proof fn law_buy_now_in_stock(html: Seq<char>)
    ensures
        has_sub(unicode_lower(html), "buy now"@) ==> inferred_status(html) == AvailabilityStatus::InStock,
{
}

/// A page whose lowercased text says "purchase" is in stock.
pub proof fn law_purchase_in_stock(html: Seq<char>)
    ensures
        has_sub(unicode_lower(html), "purchase"@) ==> inferred_status(html) == AvailabilityStatus::InStock,
{
}

/// A page whose lowercased text says "in den warenkorb" is in stock.
pub proof fn law_in_den_warenkorb_in_stock(html: Seq<char>)
    ensures
        has_sub(unicode_lower(html), "in den warenkorb"@) ==> inferred_status(html) == AvailabilityStatus::InStock,
{
}

/// A page whose lowercased text says "au panier" is in stock.
pub proof fn law_au_panier_in_stock(html: Seq<char>)
    ensures
        has_sub(unicode_lower(html), "au panier"@) ==> inferred_status(html) == AvailabilityStatus::InStock,
{
}

/// A page whose lowercased text says "カートに入れる" is in stock.
pub proof fn law_cart_ni_ireru_in_stock(html: Seq<char>)
    ensures
        has_sub(unicode_lower(html), "カートに入れる"@) ==> inferred_status(html) == AvailabilityStatus::InStock,
{
}

/// A page whose lowercased text says "カートに追加" is in stock.
pub proof fn law_cart_ni_tsuika_in_stock(html: Seq<char>)
    ensures
        has_sub(unicode_lower(html), "カートに追加"@) ==> inferred_status(html) == AvailabilityStatus::InStock,
{
}

/// A page whose lowercased text holds none of the add-to-cart phrases is
/// of unknown availability.
pub proof fn law_no_cart_phrase_unknown(html: Seq<char>)
    ensures
        ({
            let l = unicode_lower(html);
            !has_sub(l, "add to cart"@) && !has_sub(l, "add to bag"@) && !has_sub(l, "add to basket"@)
                && !has_sub(l, "buy now"@) && !has_sub(l, "purchase"@) && !has_sub(l, "in den warenkorb"@)
                && !has_sub(l, "au panier"@) && !has_sub(l, "カートに入れる"@) && !has_sub(l, "カートに追加"@)
        }) ==> inferred_status(html) == AvailabilityStatus::Unknown,
{
}

// ---------------------------------------------------------------------------
// Currencies of domain suffixes
// ---------------------------------------------------------------------------

/// Whether `host` ends with `suffix`, written out on the characters.
pub open spec fn host_ends(host: Seq<char>, suffix: Seq<char>) -> bool {
    suffix.len() <= host.len()
        && forall|k: int| 0 <= k < suffix.len() ==> #[trigger] host[host.len() - suffix.len() + k] == suffix[k]
}

proof fn lemma_host_ends(host: Seq<char>, suffix: Seq<char>)
    ensures
        host_ends(host, suffix) <==> crate::price::ends_with(host, suffix),
{
    if host_ends(host, suffix) {
        assert forall|k: int| 0 <= k < suffix.len() implies host.skip(host.len() - suffix.len())[k] == suffix[k] by {
            assert(host[host.len() - suffix.len() + k] == suffix[k]);
        }
        assert(host.skip(host.len() - suffix.len()) =~= suffix);
    }
    if crate::price::ends_with(host, suffix) {
        assert forall|k: int| 0 <= k < suffix.len() implies #[trigger] host[host.len() - suffix.len() + k] == suffix[k] by {
            assert(host.skip(host.len() - suffix.len())[k] == host[host.len() - suffix.len() + k]);
        }
    }
}

/// Every host ending in ".au" is priced in AUD, ".uk" in GBP, ".ca" in
/// CAD, ".nz" in NZD, ".eu" in EUR, ".com" or ".us" in USD.
pub proof fn law_domain_suffix_currency(host: Seq<char>)
    ensures
        host_ends(host, ".au"@) ==> domain_currency(host) == Some("AUD"@),
        host_ends(host, ".uk"@) ==> domain_currency(host) == Some("GBP"@),
        host_ends(host, ".ca"@) ==> domain_currency(host) == Some("CAD"@),
        host_ends(host, ".nz"@) ==> domain_currency(host) == Some("NZD"@),
        host_ends(host, ".eu"@) ==> domain_currency(host) == Some("EUR"@),
        host_ends(host, ".com"@) ==> domain_currency(host) == Some("USD"@),
        host_ends(host, ".us"@) ==> domain_currency(host) == Some("USD"@),
        !host_ends(host, ".au"@) && !host_ends(host, ".uk"@) && !host_ends(host, ".ca"@)
            && !host_ends(host, ".nz"@) && !host_ends(host, ".eu"@) && !host_ends(host, ".com"@)
            && !host_ends(host, ".us"@) ==> domain_currency(host) is None,
{
    reveal_strlit(".au");
    reveal_strlit(".uk");
    reveal_strlit(".ca");
    reveal_strlit(".nz");
    reveal_strlit(".eu");
    reveal_strlit(".com");
    reveal_strlit(".us");
    reveal_strlit(".com.au");
    reveal_strlit(".co.uk");
    reveal_strlit(".co.nz");
    lemma_host_ends(host, ".au"@);
    lemma_host_ends(host, ".uk"@);
    lemma_host_ends(host, ".ca"@);
    lemma_host_ends(host, ".nz"@);
    lemma_host_ends(host, ".eu"@);
    lemma_host_ends(host, ".com"@);
    lemma_host_ends(host, ".us"@);
    lemma_host_ends(host, ".com.au"@);
    lemma_host_ends(host, ".co.uk"@);
    lemma_host_ends(host, ".co.nz"@);
    let n = host.len() as int;
    if host_ends(host, ".com.au"@) {
        assert(host[n - 7 + 4] == '.' && host[n - 7 + 5] == 'a' && host[n - 7 + 6] == 'u');
        assert(host_ends(host, ".au"@));
    }
    if host_ends(host, ".co.uk"@) {
        assert(host[n - 6 + 3] == '.' && host[n - 6 + 4] == 'u' && host[n - 6 + 5] == 'k');
        assert(host_ends(host, ".uk"@));
    }
    if host_ends(host, ".co.nz"@) {
        assert(host[n - 6 + 3] == '.' && host[n - 6 + 4] == 'n' && host[n - 6 + 5] == 'z');
        assert(host_ends(host, ".nz"@));
    }
    if host_ends(host, ".com.au"@) {
        assert(host[n - 7 + 6] == 'u' && host[n - 7 + 5] == 'a');
    }
    if host_ends(host, ".co.uk"@) {
        assert(host[n - 6 + 5] == 'k');
    }
    if host_ends(host, ".co.nz"@) {
        assert(host[n - 6 + 5] == 'z');
    }
    if host_ends(host, ".au"@) {
        assert(host[n - 3 + 2] == 'u' && host[n - 3 + 1] == 'a');
    }
    if host_ends(host, ".uk"@) {
        assert(host[n - 3 + 2] == 'k');
    }
    if host_ends(host, ".ca"@) {
        assert(host[n - 3 + 2] == 'a');
    }
    if host_ends(host, ".nz"@) {
        assert(host[n - 3 + 2] == 'z');
    }
    if host_ends(host, ".eu"@) {
        assert(host[n - 3 + 2] == 'u' && host[n - 3 + 1] == 'e');
    }
    if host_ends(host, ".com"@) {
        assert(host[n - 4 + 3] == 'm');
    }
    if host_ends(host, ".us"@) {
        assert(host[n - 3 + 2] == 's');
    }
}

// ---------------------------------------------------------------------------
// Explicit bot protection
// ---------------------------------------------------------------------------

/// A page without JSON-LD that carries an explicit bot-protection message
/// ("bot detected", "please verify you are a human", "enable javascript and
/// cookies", "pardon our interruption") is a challenge, at any status and
/// any size.
pub proof fn law_explicit_protection_is_challenge(status: u16, lower: Seq<char>, byte_len: int)
    ensures
        !has_sub(lower, "application/ld+json"@) && has_sub(lower, "bot detected"@)
            ==> challenge_spec(status, lower, byte_len),
        !has_sub(lower, "application/ld+json"@) && has_sub(lower, "please verify you are a human"@)
            ==> challenge_spec(status, lower, byte_len),
        !has_sub(lower, "application/ld+json"@) && has_sub(lower, "enable javascript and cookies"@)
            ==> challenge_spec(status, lower, byte_len),
        !has_sub(lower, "application/ld+json"@) && has_sub(lower, "pardon our interruption"@)
            ==> challenge_spec(status, lower, byte_len),
{
}

/// A page without JSON-LD that carries a Cloudflare challenge marker is a
/// challenge, at any status and any size.
pub proof fn law_cloudflare_marker_is_challenge(status: u16, lower: Seq<char>, byte_len: int)
    ensures
        !has_sub(lower, "application/ld+json"@) ==> (has_sub(lower, "just a moment..."@) ==> challenge_spec(status, lower, byte_len)),
        !has_sub(lower, "application/ld+json"@) ==> (has_sub(lower, "cf-browser-verification"@) ==> challenge_spec(status, lower, byte_len)),
        !has_sub(lower, "application/ld+json"@) ==> (has_sub(lower, "_cf_chl_opt"@) ==> challenge_spec(status, lower, byte_len)),
        !has_sub(lower, "application/ld+json"@) ==> (has_sub(lower, "checking your browser"@) ==> challenge_spec(status, lower, byte_len)),
        !has_sub(lower, "application/ld+json"@) ==> (has_sub(lower, "ray id:"@) ==> challenge_spec(status, lower, byte_len)),
        !has_sub(lower, "application/ld+json"@) ==> (has_sub(lower, "cf-challenge"@) ==> challenge_spec(status, lower, byte_len)),
        !has_sub(lower, "application/ld+json"@) ==> (has_sub(lower, "__cf_bm"@) ==> challenge_spec(status, lower, byte_len)),
        !has_sub(lower, "application/ld+json"@) ==> (has_sub(lower, "/cdn-cgi/challenge-platform/"@) ==> challenge_spec(status, lower, byte_len)),
{
}

/// A 403 or 503 answer without JSON-LD whose body is under 5000 bytes or
/// has no `<body` is a challenge; JSON-LD product data is never one.
pub proof fn law_blocked_minimal_page_is_challenge(status: u16, lower: Seq<char>, byte_len: int)
    ensures
        (status == 403 || status == 503) && !has_sub(lower, "application/ld+json"@)
            && (byte_len < 5000 || !has_sub(lower, "<body"@)) ==> challenge_spec(status, lower, byte_len),
        has_sub(lower, "application/ld+json"@) ==> !challenge_spec(status, lower, byte_len),
{
}

// ---------------------------------------------------------------------------
// Chemist Warehouse availability text
// ---------------------------------------------------------------------------

/// The availability text of product data comes from its members in order:
/// a string `availability`; else a string `stockStatus`; else a string
/// `stock`; else a boolean `inStock` ("in-stock" or "out-of-stock").
pub proof fn law_availability_members(p: JsonValue)
    ensures
        as_str_spec(get_spec(p, "availability"@)) matches Some(a) ==> availability_text(p) == Some(a),
        as_str_spec(get_spec(p, "availability"@)) is None
            ==> (as_str_spec(get_spec(p, "stockStatus"@)) matches Some(a) ==> availability_text(p) == Some(a)),
        as_str_spec(get_spec(p, "availability"@)) is None && as_str_spec(get_spec(p, "stockStatus"@)) is None
            ==> (as_str_spec(get_spec(p, "stock"@)) matches Some(a) ==> availability_text(p) == Some(a)),
        as_str_spec(get_spec(p, "availability"@)) is None && as_str_spec(get_spec(p, "stockStatus"@)) is None
            && as_str_spec(get_spec(p, "stock"@)) is None ==> availability_text(p) == match as_bool_spec(get_spec(p, "inStock"@)) {
                Some(true) => Some("in-stock"@),
                Some(false) => Some("out-of-stock"@),
                None => None::<Seq<char>>,
            },
{
}

} // verus!
