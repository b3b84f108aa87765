//! Shopify adapter for checking product availability.
//!
//! Many Shopify stores don't include Schema.org JSON-LD data or don't expose
//! availability in their product.json API. The check reads the variant from
//! product.json and, when that has no availability, asks the cart API by
//! adding the variant to the cart. The HTTP exchanges are made by the
//! caller; this module holds the decisions.

use vstd::prelude::*;
use crate::error::{concat_str, err_view, AppError};
use crate::gtm::str_member;
use crate::json::{as_str_spec, get_spec, json_parse, opt_view, parse_json, JsonValue};
use crate::price::{infer_currency_from_domain, multiplier_for, parse_price_to_minor_units, price_minor_spec, price_view, url_domain_currency, PriceInfo};
use crate::schema_org::{first_pair_value, query_value};
use crate::scraping::{outcome_view, scraping_view, ScrapingResult};
use crate::status::AvailabilityStatus;
use crate::text::{
    chars_eq_str, chars_of, contains_str, has_sub, i64_text, int_text, parse_i64, parse_i64_spec,
    split_chars, split_spec, str_eq, to_lower, unicode_lower, u64_text, nat_text, string_of,
};
use crate::url::{parse_url, strs_view, url_parse, UrlParts, UrlSpec};

verus! {

// ---------------------------------------------------------------------------
// URL and page checks
// ---------------------------------------------------------------------------

/// Whether one of the segments is exactly `products`.
pub open spec fn has_products(segs: Seq<Seq<char>>) -> bool {
    exists|i: int| 0 <= i < segs.len() && #[trigger] segs[i] == "products"@
}

/// Whether a URL's path has a segment that is exactly `products`.
pub open spec fn products_segment(url: Seq<char>) -> bool {
    match url_parse(url) {
        Ok(u) => match u.segments {
            Some(segs) => has_products(segs),
            None => false,
        },
        Err(_) => false,
    }
}

/// Check if a URL has an exact "products" path segment (common in Shopify URLs).
pub fn has_products_path_segment(url: &str) -> (r: bool)
    ensures
        r == products_segment(url@),
{
    match parse_url(url) {
        Ok(parsed) => match &parsed.segments {
            Some(segs) => {
                let mut i: usize = 0;
                while i < segs.len()
                    invariant
                        i <= segs@.len(),
                        url_parse(url@) matches Ok(u) && u.segments == Some(strs_view(segs@)),
                        forall|k: int| 0 <= k < i ==> #[trigger] segs@[k]@ != "products"@,
                    decreases segs.len() - i,
                {
                    if str_eq(segs[i].as_str(), "products") {
                        assert(strs_view(segs@)[i as int] == "products"@);
                        return true;
                    }
                    i = i + 1;
                }
                assert forall|k: int| 0 <= k < strs_view(segs@).len() implies #[trigger] strs_view(segs@)[k] != "products"@ by {
                    assert(strs_view(segs@)[k] == segs@[k]@);
                }
                false
            },
            None => false,
        },
        Err(_) => false,
    }
}

/// Check if a URL belongs to a known non-Shopify store that uses the
/// /products/ pattern (Chemist Warehouse).
pub fn is_known_non_shopify_store(url: &str) -> (r: bool)
    ensures
        r == has_sub(url@, "chemistwarehouse"@),
{
    let u = chars_of(url);
    contains_str(u.as_slice(), "chemistwarehouse")
}

/// Check if a URL is potentially a Shopify product page: it has a
/// `products` path segment and is not from a known non-Shopify store.
pub fn is_potential_shopify_product_url(url: &str) -> (r: bool)
    ensures
        r == (products_segment(url@) && !has_sub(url@, "chemistwarehouse"@)),
{
    has_products_path_segment(url) && !is_known_non_shopify_store(url)
}

/// Whether page text holds a Shopify marker.
pub open spec fn shopify_markers(html: Seq<char>) -> bool {
    has_sub(html, "Shopify.shop"@) || has_sub(html, "cdn.shopify.com"@) || has_sub(html, "shopify-section"@)
}

/// Check if HTML contains Shopify-specific markers.
pub fn is_shopify_store(html: &str) -> (r: bool)
    ensures
        r == shopify_markers(html@),
{
    let h = chars_of(html);
    let h = h.as_slice();
    contains_str(h, "Shopify.shop") || contains_str(h, "cdn.shopify.com") || contains_str(h, "shopify-section")
}

/// The first index from `i` on where a piece is `products` and another
/// piece follows.
pub open spec fn products_index(parts: Seq<Seq<char>>, i: int) -> Option<int>
    decreases parts.len() - i,
{
    if i < 0 || i >= parts.len() {
        None
    } else if parts[i] == "products"@ && i + 1 < parts.len() {
        Some(i)
    } else {
        products_index(parts, i + 1)
    }
}

/// The handle in a path: the piece after the first `products` piece that
/// has a successor, cut at its first `?`.
pub open spec fn handle_of_path(path: Seq<char>) -> Option<Seq<char>> {
    let parts = split_spec(path, '/');
    match products_index(parts, 0) {
        Some(i) => Some(split_spec(parts[i + 1], '?')[0]),
        None => None,
    }
}

/// The handle named by a URL.
pub open spec fn product_handle(url: Seq<char>) -> Option<Seq<char>> {
    match url_parse(url) {
        Ok(u) => handle_of_path(u.path),
        Err(_) => None,
    }
}

proof fn lemma_products_index_bounds(parts: Seq<Seq<char>>, i: int)
    ensures
        products_index(parts, i) matches Some(k) ==> i <= k && k + 1 < parts.len() && parts[k] == "products"@,
    decreases parts.len() - i,
{
    if !(i < 0 || i >= parts.len()) && !(parts[i] == "products"@ && i + 1 < parts.len()) {
        lemma_products_index_bounds(parts, i + 1);
    }
}

/// The product handle in a URL path (see `handle_of_path`).
pub fn handle_from_path(path: &str) -> (r: Option<String>)
    ensures
        opt_view(r) == handle_of_path(path@),
{
    let p = chars_of(path);
    let parts = split_chars(p.as_slice(), '/');
    let ghost pv = strs_view(parts@);
    let mut i: usize = 0;
    while i < parts.len()
        invariant
            pv == strs_view(parts@),
            pv == split_spec(path@, '/'),
            i <= parts@.len(),
            products_index(pv, 0) == products_index(pv, i as int),
        decreases parts.len() - i,
    {
        if str_eq(parts[i].as_str(), "products") && i + 1 < parts.len() {
            proof {
                assert(pv[i as int] == parts@[i as int]@);
            }
            let next = chars_of(parts[i + 1].as_str());
            let pieces = split_chars(next.as_slice(), '?');
            proof {
                crate::text::lemma_split_nonempty(next@, '?');
                assert(strs_view(pieces@)[0] == pieces@[0]@);
                assert(pv[i + 1] == parts@[i + 1]@);
            }
            return Some(pieces[0].clone());
        }
        proof {
            assert(pv[i as int] == parts@[i as int]@);
        }
        i = i + 1;
    }
    None
}

/// Extract the product handle from a Shopify URL,
/// e.g. `https://store.com/products/my-product` gives `my-product`.
pub fn extract_product_handle(url: &str) -> (r: Option<String>)
    ensures
        opt_view(r) == product_handle(url@),
{
    match parse_url(url) {
        Ok(parsed) => handle_from_path(parsed.path.as_str()),
        Err(_) => None,
    }
}

/// The variant id a URL's first `variant` query value parses to.
pub open spec fn shopify_variant_id(url: Seq<char>) -> Option<i64> {
    match url_parse(url) {
        Ok(u) => match first_pair_value(u.query_pairs, "variant"@, 0) {
            Some(v) => parse_i64_spec(v),
            None => None,
        },
        Err(_) => None,
    }
}

/// Extract the variant ID from the URL's first `variant` query parameter,
/// parsed as an integer.
pub fn extract_variant_id(url: &str) -> (r: Option<i64>)
    ensures
        r == shopify_variant_id(url@),
{
    match parse_url(url) {
        Ok(parsed) => match query_value(parsed.query_pairs.as_slice(), "variant") {
            Some(v) => parse_i64(v.as_str()),
            None => None,
        },
        Err(_) => None,
    }
}

/// The base of parsed URL parts: scheme, `://`, host, and `:port` when a
/// non-default port is given.
pub open spec fn parts_base(u: UrlSpec) -> Option<Seq<char>> {
    match u.host {
        Some(h) => match u.port {
            Some(p) => Some(u.scheme + "://"@ + h + ":"@ + nat_text(p as nat)),
            None => Some(u.scheme + "://"@ + h),
        },
        None => None,
    }
}

/// The base of a URL (see `parts_base`).
pub open spec fn base_of(url: Seq<char>) -> Option<Seq<char>> {
    match url_parse(url) {
        Ok(u) => parts_base(u),
        Err(_) => None,
    }
}

/// The scheme + host (+ port) portion of parsed URL parts.
pub fn base_from_parts(parsed: &UrlParts) -> (r: Option<String>)
    ensures
        opt_view(r) == parts_base(parsed@),
{
    match &parsed.host {
        Some(h) => {
            let with_sep = concat_str(parsed.scheme.as_str(), "://");
            let with_host = concat_str(with_sep.as_str(), h.as_str());
            match parsed.port {
                Some(p) => {
                    let with_colon = concat_str(with_host.as_str(), ":");
                    let digits = u64_text(p as u64);
                    let port_text = string_of(digits.as_slice());
                    Some(concat_str(with_colon.as_str(), port_text.as_str()))
                },
                None => Some(with_host),
            }
        },
        None => None,
    }
}

/// Get the base URL (scheme + host + port) from a full URL. Default ports
/// are not shown.
pub fn get_base_url(url: &str) -> (r: Option<String>)
    ensures
        opt_view(r) == base_of(url@),
{
    match parse_url(url) {
        Ok(parsed) => base_from_parts(&parsed),
        Err(_) => None,
    }
}

// ---------------------------------------------------------------------------
// Product context
// ---------------------------------------------------------------------------

/// Context for a Shopify product URL containing parsed components.
#[derive(Debug, Clone)]
pub struct ShopifyContext {
    pub base_url: String,
    pub handle: String,
    pub variant_id: Option<i64>,
    pub url: String,
}

/// What `ShopifyContext::from_url` gives: (base, handle, variant id, url),
/// or the error.
pub open spec fn context_spec(url: Seq<char>) -> Result<(Seq<char>, Seq<char>, Option<i64>, Seq<char>), (int, Seq<char>)> {
    match base_of(url) {
        None => Err((4int, "Could not parse base URL"@)),
        Some(b) => match product_handle(url) {
            None => Err((4int, "Could not extract product handle from URL"@)),
            Some(h) => Ok((b, h, shopify_variant_id(url), url)),
        },
    }
}

/// The view of a context outcome.
pub open spec fn context_view(r: Result<ShopifyContext, AppError>) -> Result<(Seq<char>, Seq<char>, Option<i64>, Seq<char>), (int, Seq<char>)> {
    match r {
        Ok(c) => Ok((c.base_url@, c.handle@, c.variant_id, c.url@)),
        Err(e) => Err(err_view(e)),
    }
}

impl ShopifyContext {
    /// Parse a Shopify product URL into its components.
    pub fn from_url(url: &str) -> (r: Result<ShopifyContext, AppError>)
        ensures
            context_view(r) == context_spec(url@),
    {
        let base_url = match get_base_url(url) {
            Some(b) => b,
            None => {
                return Err(AppError::External("Could not parse base URL".to_string()));
            },
        };
        let handle = match extract_product_handle(url) {
            Some(h) => h,
            None => {
                return Err(AppError::External("Could not extract product handle from URL".to_string()));
            },
        };
        let variant_id = extract_variant_id(url);
        Ok(ShopifyContext { base_url, handle, variant_id, url: url.to_string() })
    }

    /// The product.json URL: `{base}/products/{handle}.json`.
    pub fn product_json_url(&self) -> (r: String)
        ensures
            r@ == self.base_url@ + "/products/"@ + self.handle@ + ".json"@,
    {
        let a = concat_str(self.base_url.as_str(), "/products/");
        let b = concat_str(a.as_str(), self.handle.as_str());
        concat_str(b.as_str(), ".json")
    }

    /// The cart URL that variants are added to: `{base}/cart/add.js`.
    pub fn cart_add_url(&self) -> (r: String)
        ensures
            r@ == self.base_url@ + "/cart/add.js"@,
    {
        concat_str(self.base_url.as_str(), "/cart/add.js")
    }

    /// The cart URL that empties the cart: `{base}/cart/clear.js`.
    pub fn cart_clear_url(&self) -> (r: String)
        ensures
            r@ == self.base_url@ + "/cart/clear.js"@,
    {
        concat_str(self.base_url.as_str(), "/cart/clear.js")
    }
}

// ---------------------------------------------------------------------------
// Variants and prices
// ---------------------------------------------------------------------------

/// One variant from a Shopify product.json.
#[derive(Debug, Clone)]
pub struct ShopifyVariant {
    pub id: i64,
    /// The price text; empty when product.json gives none.
    pub price: String,
    pub available: Option<bool>,
    pub price_currency: Option<String>,
}

/// The ids of a list of variants.
pub open spec fn variant_ids(vs: Seq<ShopifyVariant>) -> Seq<i64> {
    vs.map_values(|v: ShopifyVariant| v.id)
}

/// The Debug text of a list of integers: `[a, b, c]`.
pub open spec fn id_list_text(ids: Seq<i64>) -> Seq<char>
    decreases ids.len(),
{
    if ids.len() == 0 {
        "[]"@
    } else {
        "["@ + id_list_body(ids) + "]"@
    }
}

/// The integers separated by `, `.
pub open spec fn id_list_body(ids: Seq<i64>) -> Seq<char>
    decreases ids.len(),
{
    if ids.len() == 0 {
        Seq::empty()
    } else if ids.len() == 1 {
        int_text(ids[0] as int)
    } else {
        id_list_body(ids.drop_last()) + ", "@ + int_text(ids.last() as int)
    }
}

/// The first index from `i` on whose variant has id `vid`.
pub open spec fn variant_index(vs: Seq<ShopifyVariant>, vid: i64, i: int) -> Option<int>
    decreases vs.len() - i,
{
    if i < 0 || i >= vs.len() {
        None
    } else if vs[i].id == vid {
        Some(i)
    } else {
        variant_index(vs, vid, i + 1)
    }
}

/// Which variant is targeted: the one with the requested id, or the first;
/// errors for no variants or a missing id.
pub open spec fn target_spec(vs: Seq<ShopifyVariant>, vid: Option<i64>) -> Result<int, (int, Seq<char>)> {
    if vs.len() == 0 {
        Err((4int, "No variants found in product.json"@))
    } else {
        match vid {
            None => Ok(0),
            Some(v) => match variant_index(vs, v, 0) {
                Some(i) => Ok(i),
                None => Err((4int, "Variant "@ + int_text(v as int) + " not found. Available: "@ + id_list_text(variant_ids(vs)))),
            },
        }
    }
}

/// The Debug text of the ids of a list of variants.
pub fn variant_id_list(vs: &[ShopifyVariant]) -> (r: String)
    ensures
        r@ == id_list_text(variant_ids(vs@)),
{
    let ghost ids = variant_ids(vs@);
    if vs.len() == 0 {
        return "[]".to_string();
    }
    let mut body = i64_text(vs[0].id);
    let mut i: usize = 1;
    while i < vs.len()
        invariant
            ids == variant_ids(vs@),
            1 <= i <= vs@.len(),
            body@ == id_list_body(ids.take(i as int)),
        decreases vs.len() - i,
    {
        let with_sep = concat_str(body.as_str(), ", ");
        let num = i64_text(vs[i].id);
        body = concat_str(with_sep.as_str(), num.as_str());
        proof {
            assert(ids.take(i + 1).drop_last() =~= ids.take(i as int));
        }
        i = i + 1;
    }
    proof {
        assert(ids.take(vs@.len() as int) =~= ids);
        assert(ids.take(1) =~= seq![ids[0]]);
    }
    let open_bracket = concat_str("[", body.as_str());
    concat_str(open_bracket.as_str(), "]")
}

/// The index of the target variant: the one with the given ID, or the
/// first one when no ID is given.
pub fn target_variant_index(variants: &[ShopifyVariant], variant_id: Option<i64>) -> (r: Result<usize, AppError>)
    ensures
        match target_spec(variants@, variant_id) {
            Ok(i) => r matches Ok(k) && k == i,
            Err(e) => r matches Err(err) && err_view(err) == e,
        },
        r matches Ok(k) ==> k < variants@.len(),
{
    if variants.len() == 0 {
        return Err(AppError::External("No variants found in product.json".to_string()));
    }
    match variant_id {
        None => Ok(0),
        Some(vid) => {
            let mut i: usize = 0;
            while i < variants.len()
                invariant
                    i <= variants@.len(),
                    variants@.len() > 0,
                    variant_id == Some(vid),
                    variant_index(variants@, vid, 0) == variant_index(variants@, vid, i as int),
                decreases variants.len() - i,
            {
                if variants[i].id == vid {
                    return Ok(i);
                }
                i = i + 1;
            }
            let a = concat_str("Variant ", i64_text(vid).as_str());
            let b = concat_str(a.as_str(), " not found. Available: ");
            let ids = variant_id_list(variants);
            Err(AppError::External(concat_str(b.as_str(), ids.as_str())))
        },
    }
}

/// Find the target variant by ID, or the first variant when no ID is given.
pub fn find_target_variant(variants: &[ShopifyVariant], variant_id: Option<i64>) -> (r: Result<&ShopifyVariant, AppError>)
    ensures
        match target_spec(variants@, variant_id) {
            Ok(i) => r matches Ok(v) && *v == variants@[i],
            Err(e) => r matches Err(err) && err_view(err) == e,
        },
{
    match target_variant_index(variants, variant_id) {
        Ok(i) => Ok(&variants[i]),
        Err(e) => Err(e),
    }
}

/// A variant's price: the price text unless empty; the variant's currency,
/// else (with a price) the currency of the store's domain.
pub open spec fn variant_price(v: ShopifyVariant, url: Seq<char>) -> (Option<i64>, Option<Seq<char>>, Option<Seq<char>>) {
    let raw = if v.price@.len() == 0 {
        None
    } else {
        Some(v.price@)
    };
    let currency = if opt_view(v.price_currency) is Some {
        opt_view(v.price_currency)
    } else if raw is Some {
        url_domain_currency(url)
    } else {
        None
    };
    let minor = match raw {
        Some(t) => price_minor_spec(t, multiplier_for(currency)),
        None => None,
    };
    (minor, currency, raw)
}

/// Extract price info from a Shopify variant (see `variant_price`).
pub fn extract_price_from_variant(variant: &ShopifyVariant, url: &str) -> (r: PriceInfo)
    ensures
        price_view(r) == variant_price(*variant, url@),
{
    let raw_price = if variant.price.as_str().is_empty() {
        None
    } else {
        Some(variant.price.clone())
    };
    let price_currency = match &variant.price_currency {
        Some(c) => Some(c.clone()),
        None => {
            if raw_price.is_some() {
                infer_currency_from_domain(url)
            } else {
                None
            }
        },
    };
    let price_minor_units = match &raw_price {
        Some(p) => match &price_currency {
            Some(c) => parse_price_to_minor_units(p.as_str(), Some(c.as_str())),
            None => parse_price_to_minor_units(p.as_str(), None),
        },
        None => None,
    };
    PriceInfo { price_minor_units, price_currency, raw_price }
}

/// Build a ScrapingResult from product.json availability data.
pub fn build_product_json_result(available: bool, variant: &ShopifyVariant, url: &str) -> (r: ScrapingResult)
    ensures
        scraping_view(r) == (
            if available { AvailabilityStatus::InStock } else { AvailabilityStatus::OutOfStock },
            Some(if available { "product_json:available"@ } else { "product_json:unavailable"@ }),
            variant_price(*variant, url@),
        ),
{
    let (status, raw) = if available {
        (AvailabilityStatus::InStock, "product_json:available")
    } else {
        (AvailabilityStatus::OutOfStock, "product_json:unavailable")
    };
    ScrapingResult { status, raw_availability: Some(raw.to_string()), price: extract_price_from_variant(variant, url) }
}

// ---------------------------------------------------------------------------
// Cart API answers
// ---------------------------------------------------------------------------

/// The outcome of adding a variant to the cart.
#[derive(Debug, Clone)]
pub struct CartAvailabilityResult {
    pub status: AvailabilityStatus,
    pub raw_availability: String,
}

/// Whether a lowercased cart error message says the product is out of stock.
pub open spec fn cart_out_of_stock(m: Seq<char>) -> bool {
    ||| has_sub(m, "sold out"@)
    ||| has_sub(m, "not available"@)
    ||| has_sub(m, "out of stock"@)
    ||| has_sub(m, "no longer available"@)
    ||| has_sub(m, "all items are out of stock"@)
    ||| has_sub(m, "insufficient inventory"@)
}

/// Check if a cart API error message indicates the product is out of stock.
pub fn is_cart_error_out_of_stock(message: &str) -> (r: bool)
    ensures
        r == cart_out_of_stock(message@),
{
    let m = chars_of(message);
    let m = m.as_slice();
    contains_str(m, "sold out") || contains_str(m, "not available") || contains_str(m, "out of stock")
        || contains_str(m, "no longer available") || contains_str(m, "all items are out of stock")
        || contains_str(m, "insufficient inventory")
}

impl CartAvailabilityResult {
    /// The variant was added to the cart: in stock.
    pub fn in_stock() -> (r: CartAvailabilityResult)
        ensures
            r.status == AvailabilityStatus::InStock,
            r.raw_availability@ == "cart_api:in_stock"@,
    {
        CartAvailabilityResult { status: AvailabilityStatus::InStock, raw_availability: "cart_api:in_stock".to_string() }
    }
}

/// A member that may be absent, null or a string.
pub open spec fn string_or_absent(f: Option<JsonValue>) -> bool {
    crate::gtm::optional_string_ok(f)
}

/// The text of element `i` of an array, when it is a string.
pub open spec fn element_str(a: Seq<JsonValue>, i: int) -> Option<Seq<char>> {
    if 0 <= i < a.len() {
        as_str_spec(Some(a[i]))
    } else {
        None
    }
}

/// The `message` and `description` a cart error body decodes to, the way
/// a two-field record with optional string fields decodes: from an object
/// whose two members are absent, null or strings (other members ignored),
/// or from an array of at most two elements, each null or a string, read
/// in field order; anything else does not decode.
pub open spec fn cart_error_fields(v: JsonValue) -> Option<(Option<Seq<char>>, Option<Seq<char>>)> {
    match v {
        JsonValue::Object(_) => if string_or_absent(get_spec(v, "message"@))
            && string_or_absent(get_spec(v, "description"@)) {
            Some((str_member(v, "message"@), str_member(v, "description"@)))
        } else {
            None
        },
        JsonValue::Array(a) => if a@.len() <= 2
            && (a@.len() > 0 ==> string_or_absent(Some(a@[0])))
            && (a@.len() > 1 ==> string_or_absent(Some(a@[1]))) {
            Some((element_str(a@, 0), element_str(a@, 1)))
        } else {
            None
        },
        _ => None,
    }
}

/// The lowercased message of a cart error body: `message`, else
/// `description`, else empty; `None` when the body does not decode as a
/// cart error (see `cart_error_fields`).
pub open spec fn cart_error_message(body: Seq<char>) -> Option<Seq<char>> {
    match json_parse(body) {
        Some(v) => match cart_error_fields(v) {
            Some((m, d)) => match (if m is Some { m } else { d }) {
                Some(t) => Some(unicode_lower(t)),
                None => Some(unicode_lower(Seq::empty())),
            },
            None => None,
        },
        None => None,
    }
}

/// The text of a value that is a string.
fn str_of(v: &JsonValue) -> (r: Option<&str>)
    ensures
        match r {
            Some(t) => as_str_spec(Some(*v)) == Some(t@),
            None => as_str_spec(Some(*v)) is None,
        },
{
    match v {
        JsonValue::String(t) => Some(t.as_str()),
        _ => None,
    }
}

/// The `message` and `description` of a cart error body (see
/// `cart_error_fields`), each `None` when absent or null.
fn cart_fields(v: &JsonValue) -> (r: Option<(Option<&str>, Option<&str>)>)
    ensures
        match r {
            Some((m, d)) => cart_error_fields(*v) == Some((opt_text_view(m), opt_text_view(d))),
            None => cart_error_fields(*v) is None,
        },
{
    match v {
        JsonValue::Object(_) => {
            if !(crate::gtm::optional_string(v.get("message")) && crate::gtm::optional_string(v.get("description"))) {
                return None;
            }
            let m = match v.get("message") {
                Some(x) => str_of(x),
                None => None,
            };
            let d = match v.get("description") {
                Some(x) => str_of(x),
                None => None,
            };
            Some((m, d))
        },
        JsonValue::Array(a) => {
            if a.len() > 2 {
                return None;
            }
            if a.len() > 0 && !crate::gtm::optional_string(Some(&a[0])) {
                return None;
            }
            if a.len() > 1 && !crate::gtm::optional_string(Some(&a[1])) {
                return None;
            }
            let m = if a.len() > 0 { str_of(&a[0]) } else { None };
            let d = if a.len() > 1 { str_of(&a[1]) } else { None };
            Some((m, d))
        },
        _ => None,
    }
}

/// The view of an optional string slice.
pub open spec fn opt_text_view(o: Option<&str>) -> Option<Seq<char>> {
    match o {
        Some(t) => Some(t@),
        None => None,
    }
}

/// The text of the first `min(len, 100)` bytes of a string's UTF-8 encoding.
pub open spec fn preview_100(s: Seq<char>) -> Seq<char> {
    let bytes = vstd::utf8::encode_utf8(s);
    let n = if bytes.len() <= 100 { bytes.len() as int } else { 100 };
    vstd::utf8::decode_utf8(bytes.take(n))
}

/// The lowercased message of a cart error body (see `cart_error_message`).
pub fn cart_message(body: &str) -> (r: Option<String>)
    ensures
        opt_view(r) == cart_error_message(body@),
{
    match parse_json(body) {
        Some(v) => match cart_fields(&v) {
            Some((m, d)) => {
                let text: &str = match m {
                    Some(t) => t,
                    None => match d {
                        Some(t) => t,
                        None => "",
                    },
                };
                proof {
                    reveal_strlit("");
                    let mv = opt_text_view(m);
                    let dv = opt_text_view(d);
                    assert(text@ == (if mv is Some { mv->0 } else if dv is Some { dv->0 } else { Seq::<char>::empty() }));
                }
                Some(to_lower(text))
            },
            None => None,
        },
        None => None,
    }
}

/// Parse an error body from the cart API to determine if out of stock.
///
/// A body whose message (or description), lowercased, names an
/// out-of-stock condition gives out of stock with raw availability
/// `cart_api:out_of_stock:{message}`; anything else is an error that
/// quotes the HTTP status and the first 100 bytes of the body (so the
/// 100th byte must end a character whenever the body is quoted).
pub fn parse_cart_error_body(body: &str, status_text: &str) -> (r: Result<CartAvailabilityResult, AppError>)
    requires
        vstd::utf8::encode_utf8(body@).len() <= 100 || body.is_char_boundary(100)
            || (cart_error_message(body@) matches Some(m) && cart_out_of_stock(m)),
    ensures
        match cart_error_message(body@) {
            Some(m) => if cart_out_of_stock(m) {
                r matches Ok(c) && c.status == AvailabilityStatus::OutOfStock
                    && c.raw_availability@ == "cart_api:out_of_stock:"@ + m
            } else {
                r matches Err(e) && err_view(e) == (4int, "Cart API returned unexpected response: HTTP "@
                    + status_text@ + " - "@ + preview_100(body@))
            },
            None => r matches Err(e) && err_view(e) == (4int, "Cart API returned unexpected response: HTTP "@
                + status_text@ + " - "@ + preview_100(body@)),
        },
{
    match cart_message(body) {
        Some(message) => {
            if is_cart_error_out_of_stock(message.as_str()) {
                return Ok(CartAvailabilityResult {
                    status: AvailabilityStatus::OutOfStock,
                    raw_availability: concat_str("cart_api:out_of_stock:", message.as_str()),
                });
            }
        },
        None => {},
    }
    let preview = if body.is_char_boundary(100) {
        let (head, _tail) = body.split_at(100);
        proof {
            vstd::utf8::encode_utf8_decode_utf8(head@);
            vstd::utf8::encode_utf8_valid_utf8(body@);
            assert(vstd::utf8::encode_utf8(body@).len() >= 100);
        }
        head
    } else {
        proof {
            assert(vstd::utf8::encode_utf8(body@).take(vstd::utf8::encode_utf8(body@).len() as int) =~= vstd::utf8::encode_utf8(body@));
            vstd::utf8::encode_utf8_decode_utf8(body@);
        }
        body
    };
    let a = concat_str("Cart API returned unexpected response: HTTP ", status_text);
    let b = concat_str(a.as_str(), " - ");
    Err(AppError::External(concat_str(b.as_str(), preview)))
}

/// The scraping result from a cart check and the targeted variant.
pub fn result_from_cart(cart: CartAvailabilityResult, variant: &ShopifyVariant, url: &str) -> (r: ScrapingResult)
    ensures
        scraping_view(r) == (cart.status, Some(cart.raw_availability@), variant_price(*variant, url@)),
{
    ScrapingResult { status: cart.status, raw_availability: Some(cart.raw_availability), price: extract_price_from_variant(variant, url) }
}

// ---------------------------------------------------------------------------
// The check, step by step
// ---------------------------------------------------------------------------

/// Start a Shopify check of a page: the page must carry a Shopify marker,
/// and its URL must give a context.
pub fn context_for_page(url: &str, html: &str) -> (r: Result<ShopifyContext, AppError>)
    ensures
        !shopify_markers(html@) ==> (r matches Err(e) && err_view(e) == (4int, "Not a Shopify store"@)),
        shopify_markers(html@) ==> context_view(r) == context_spec(url@),
{
    if !is_shopify_store(html) {
        return Err(AppError::External("Not a Shopify store".to_string()));
    }
    ShopifyContext::from_url(url)
}

/// What follows reading product.json.
#[derive(Debug, Clone)]
pub enum ProductJsonStep {
    /// product.json tells the availability: this is the result.
    Done(ScrapingResult),
    /// product.json says nothing of availability: ask the cart API about
    /// the variant at this index.
    AskCart(usize),
}

/// The step after product.json: the target variant's availability gives
/// the result when product.json states it; otherwise the cart API is asked.
pub fn after_product_json(variants: &[ShopifyVariant], context: &ShopifyContext) -> (r: Result<ProductJsonStep, AppError>)
    ensures
        match target_spec(variants@, context.variant_id) {
            Err(e) => r matches Err(err) && err_view(err) == e,
            Ok(i) => match variants@[i].available {
                Some(a) => r matches Ok(ProductJsonStep::Done(x)) && scraping_view(x) == (
                    if a { AvailabilityStatus::InStock } else { AvailabilityStatus::OutOfStock },
                    Some(if a { "product_json:available"@ } else { "product_json:unavailable"@ }),
                    variant_price(variants@[i], context.url@),
                ),
                None => r matches Ok(ProductJsonStep::AskCart(k)) && k == i,
            },
        },
{
    let i = match target_variant_index(variants, context.variant_id) {
        Ok(i) => i,
        Err(e) => return Err(e),
    };
    match variants[i].available {
        Some(available) => Ok(ProductJsonStep::Done(build_product_json_result(available, &variants[i], context.url.as_str()))),
        None => Ok(ProductJsonStep::AskCart(i)),
    }
}

/// What asking the cart API about a variant gives: an accepted item is in
/// stock; a refusal whose message names an out-of-stock condition is out of
/// stock; any other refusal is an error quoting the status and the first
/// 100 bytes of the body.
pub open spec fn cart_outcome(
    added: bool,
    body: Seq<char>,
    status_text: Seq<char>,
    variant: ShopifyVariant,
    url: Seq<char>,
) -> Result<(AvailabilityStatus, Option<Seq<char>>, (Option<i64>, Option<Seq<char>>, Option<Seq<char>>)), (int, Seq<char>)> {
    let refused = Err((4int, "Cart API returned unexpected response: HTTP "@ + status_text + " - "@ + preview_100(body)));
    if added {
        Ok((AvailabilityStatus::InStock, Some("cart_api:in_stock"@), variant_price(variant, url)))
    } else {
        match cart_error_message(body) {
            Some(m) => if cart_out_of_stock(m) {
                Ok((AvailabilityStatus::OutOfStock, Some("cart_api:out_of_stock:"@ + m), variant_price(variant, url)))
            } else {
                refused
            },
            None => refused,
        }
    }
}

/// Whether a cart answer can be read without quoting a body cut inside a
/// character: it was accepted, its body is at most 100 bytes or has a
/// character boundary at byte 100, or its message says out of stock.
pub open spec fn cart_answer_readable(added: bool, body: &str) -> bool {
    added || vstd::utf8::encode_utf8(body@).len() <= 100 || body.is_char_boundary(100)
        || (cart_error_message(body@) matches Some(m) && cart_out_of_stock(m))
}

/// The result of asking the cart API about a variant: an accepted item is
/// in stock; a refusal is read from its body (see `parse_cart_error_body`).
pub fn after_cart(added: bool, body: &str, status_text: &str, variant: &ShopifyVariant, url: &str) -> (r: Result<ScrapingResult, AppError>)
    requires
        cart_answer_readable(added, body),
    ensures
        outcome_view(r) == cart_outcome(added, body@, status_text@, *variant, url@),
{
    let cart = if added {
        CartAvailabilityResult::in_stock()
    } else {
        match parse_cart_error_body(body, status_text) {
            Ok(c) => c,
            Err(e) => return Err(e),
        }
    };
    Ok(result_from_cart(cart, variant, url))
}

/// Read a cart answer when it can be read: `None` for a refused answer
/// whose body would have to be quoted up to byte 100 and is cut there inside
/// a character; otherwise the result `after_cart` gives.
pub fn read_cart_answer(added: bool, body: &str, status_text: &str, variant: &ShopifyVariant, url: &str) -> (r: Option<Result<ScrapingResult, AppError>>)
    ensures
        r is None <==> !cart_answer_readable(added, body),
        r matches Some(x) ==> outcome_view(x) == cart_outcome(added, body@, status_text@, *variant, url@),
{
    let readable = if added || body.as_bytes().len() <= 100 || body.is_char_boundary(100) {
        true
    } else {
        match cart_message(body) {
            Some(m) => is_cart_error_out_of_stock(m.as_str()),
            None => false,
        }
    };
    if readable {
        Some(after_cart(added, body, status_text, variant, url))
    } else {
        None
    }
}

} // verus!
