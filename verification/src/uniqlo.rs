//! Uniqlo adapter for checking product availability.
//!
//! Uniqlo product pages are rendered client-side, so price and stock come
//! from Uniqlo's commerce API:
//!
//! ```text
//! GET /{region}/api/commerce/v5/{lang}/products/{code}/price-groups/{pg}/l2s
//!     ?withPrices=true&withStocks=true&httpFailure=true
//! Header: x-fr-clientid: uq.{region}.web-spa
//! ```
//!
//! This module parses the product URL, builds the request, and reads the
//! decoded response; the HTTP exchange is made by the caller.

use vstd::prelude::*;
use crate::error::{concat_str, err_view, AppError};
use crate::json::opt_view;
use crate::price::{ends_with, multiplier_for, parse_price_to_minor_units, price_minor_spec, price_view, PriceInfo};
use crate::schema_org::{first_pair_value, query_value};
use crate::scraping::{outcome_view, scraping_view, ScrapingResult};
use crate::shopify::{base_from_parts, has_products, parts_base};
use crate::status::AvailabilityStatus;
use crate::text::{
    chars_eq_str, chars_of, debug_option_str, ends_with_str, option_debug_text, str_eq, to_upper,
    unicode_upper,
};
use crate::url::{parse_url, strs_view, url_parse, UrlSpec};

verus! {

// ---------------------------------------------------------------------------
// Product URLs
// ---------------------------------------------------------------------------

/// Whether a host is Uniqlo's: `uniqlo.com` or a subdomain of it.
pub open spec fn uniqlo_host(h: Seq<char>) -> bool {
    h == "uniqlo.com"@ || ends_with(h, ".uniqlo.com"@)
}

/// Whether a URL is a Uniqlo product page: a Uniqlo host and a `products`
/// path segment.
pub open spec fn uniqlo_product_url(url: Seq<char>) -> bool {
    match url_parse(url) {
        Ok(u) => match u.host {
            Some(h) => uniqlo_host(h) && match u.segments {
                Some(segs) => has_products(segs),
                None => false,
            },
            None => false,
        },
        Err(_) => false,
    }
}

fn any_products(segs: &Vec<String>) -> (r: bool)
    ensures
        r == has_products(strs_view(segs@)),
{
    let mut i: usize = 0;
    while i < segs.len()
        invariant
            i <= segs@.len(),
            forall|k: int| 0 <= k < i ==> #[trigger] segs@[k]@ != "products"@,
        decreases segs.len() - i,
    {
        if str_eq(segs[i].as_str(), "products") {
            assert(strs_view(segs@)[i as int] == "products"@);
            return true;
        }
        i = i + 1;
    }
    assert forall|k: int| 0 <= k < strs_view(segs@).len() implies #[trigger] strs_view(segs@)[k] != "products"@ by {
        assert(strs_view(segs@)[k] == segs@[k]@);
    }
    false
}

/// Check if a URL is a Uniqlo product page handled by this adapter.
pub fn is_uniqlo_product_url(url: &str) -> (r: bool)
    ensures
        r == uniqlo_product_url(url@),
{
    match parse_url(url) {
        Ok(parsed) => match &parsed.host {
            Some(h) => {
                let hc = chars_of(h.as_str());
                let is_uniqlo = chars_eq_str(hc.as_slice(), "uniqlo.com") || ends_with_str(hc.as_slice(), ".uniqlo.com");
                let has = match &parsed.segments {
                    Some(segs) => any_products(segs),
                    None => false,
                };
                is_uniqlo && has
            },
            None => false,
        },
        Err(_) => false,
    }
}

/// Parsed components of a Uniqlo product URL needed to query the commerce API.
#[derive(Debug, Clone)]
pub struct UniqloContext {
    pub region: String,
    pub lang: String,
    pub product_code: String,
    pub price_group: String,
    pub color_display_code: Option<String>,
    pub size_display_code: Option<String>,
    /// Scheme + host (e.g. `https://www.uniqlo.com`), used to build the API URL
    pub base_url: String,
}

/// The path segments that are not empty.
pub open spec fn nonempty_segments(u: UrlSpec) -> Seq<Seq<char>> {
    match u.segments {
        Some(segs) => segs.filter(|s: Seq<char>| s.len() > 0),
        None => Seq::empty(),
    }
}

/// The first index from `i` on whose segment is `products`.
pub open spec fn products_position(segs: Seq<Seq<char>>, i: int) -> Option<int>
    decreases segs.len() - i,
{
    if i < 0 || i >= segs.len() {
        None
    } else if segs[i] == "products"@ {
        Some(i)
    } else {
        products_position(segs, i + 1)
    }
}

/// The view of a context: region, language, product code, price group,
/// color code, size code, base URL.
pub open spec fn uniqlo_context_view(c: UniqloContext) -> (Seq<char>, Seq<char>, Seq<char>, Seq<char>, Option<Seq<char>>, Option<Seq<char>>, Seq<char>) {
    (c.region@, c.lang@, c.product_code@, c.price_group@, opt_view(c.color_display_code), opt_view(c.size_display_code), c.base_url@)
}

/// What `UniqloContext::from_url` gives for parsed URL parts.
pub open spec fn context_from_parts(u: UrlSpec) -> Result<(Seq<char>, Seq<char>, Seq<char>, Seq<char>, Option<Seq<char>>, Option<Seq<char>>, Seq<char>), (int, Seq<char>)> {
    match parts_base(u) {
        None => Err((4int, "Could not parse Uniqlo base URL"@)),
        Some(base) => {
            let segs = nonempty_segments(u);
            match products_position(segs, 0) {
                None => Err((4int, "URL does not contain a 'products' path segment"@)),
                Some(idx) => if idx + 1 >= segs.len() {
                    Err((4int, "URL is missing the product code after '/products/'"@))
                } else if segs.len() == 0 {
                    Err((4int, "URL is missing the region path segment"@))
                } else {
                    let lang = if idx >= 2 { segs[1] } else { "en"@ };
                    let pg = if idx + 2 < segs.len() { segs[idx + 2] } else { "00"@ };
                    Ok((
                        segs[0],
                        lang,
                        segs[idx + 1],
                        pg,
                        first_pair_value(u.query_pairs, "colorDisplayCode"@, 0),
                        first_pair_value(u.query_pairs, "sizeDisplayCode"@, 0),
                        base,
                    ))
                },
            }
        },
    }
}

/// What `UniqloContext::from_url` gives for a URL.
pub open spec fn uniqlo_context_spec(url: Seq<char>) -> Result<(Seq<char>, Seq<char>, Seq<char>, Seq<char>, Option<Seq<char>>, Option<Seq<char>>, Seq<char>), (int, Seq<char>)> {
    match url_parse(url) {
        Err(e) => Err((2int, "Invalid URL: "@ + e)),
        Ok(u) => context_from_parts(u),
    }
}

/// The view of a context outcome.
pub open spec fn uniqlo_context_outcome(r: Result<UniqloContext, AppError>) -> Result<(Seq<char>, Seq<char>, Seq<char>, Seq<char>, Option<Seq<char>>, Option<Seq<char>>, Seq<char>), (int, Seq<char>)> {
    match r {
        Ok(c) => Ok(uniqlo_context_view(c)),
        Err(e) => Err(err_view(e)),
    }
}

/// The segments that are not empty, in order.
fn nonempty_of(segs: &Option<Vec<String>>) -> (r: Vec<String>)
    ensures
        strs_view(r@) == match segs {
            Some(v) => strs_view(v@).filter(|s: Seq<char>| s.len() > 0),
            None => Seq::<Seq<char>>::empty(),
        },
{
    let mut out: Vec<String> = Vec::new();
    match segs {
        Some(v) => {
            let ghost sv = strs_view(v@);
            let mut i: usize = 0;
            while i < v.len()
                invariant
                    sv == strs_view(v@),
                    i <= v@.len(),
                    strs_view(out@) == sv.take(i as int).filter(|s: Seq<char>| s.len() > 0),
                decreases v.len() - i,
            {
                let ghost prev = strs_view(out@);
                proof {
                    assert(sv.take(i + 1) =~= sv.take(i as int).push(sv[i as int]));
                    sv.take(i as int).lemma_filter_push(sv[i as int], |s: Seq<char>| s.len() > 0);
                }
                if !v[i].as_str().is_empty() {
                    out.push(v[i].clone());
                    assert(strs_view(out@) =~= prev.push(v@[i as int]@));
                }
                i = i + 1;
            }
            assert(sv.take(sv.len() as int) =~= sv);
            out
        },
        None => out,
    }
}

impl UniqloContext {
    /// The context from parsed URL parts (see `context_from_parts`).
    pub fn from_parts(parsed: &crate::url::UrlParts) -> (r: Result<UniqloContext, AppError>)
        ensures
            uniqlo_context_outcome(r) == context_from_parts(parsed@),
    {
        let base_url = match base_from_parts(parsed) {
            Some(b) => b,
            None => {
                return Err(AppError::External("Could not parse Uniqlo base URL".to_string()));
            },
        };
        let segments = nonempty_of(&parsed.segments);
        let ghost sv = strs_view(segments@);
        let mut idx: usize = 0;
        while idx < segments.len()
            invariant
                sv == strs_view(segments@),
                idx <= segments@.len(),
                products_position(sv, 0) == products_position(sv, idx as int),
            ensures
                idx <= segments@.len(),
                products_position(sv, 0) == products_position(sv, idx as int),
                idx < segments@.len() ==> sv[idx as int] == "products"@,
            decreases segments.len() - idx,
        {
            if str_eq(segments[idx].as_str(), "products") {
                break;
            }
            idx = idx + 1;
        }
        if idx >= segments.len() {
            return Err(AppError::External("URL does not contain a 'products' path segment".to_string()));
        }
        assert(products_position(sv, idx as int) == Some(idx as int));
        if idx + 1 >= segments.len() {
            return Err(AppError::External("URL is missing the product code after '/products/'".to_string()));
        }
        let region = segments[0].clone();
        let lang = if idx >= 2 {
            segments[1].clone()
        } else {
            "en".to_string()
        };
        let product_code = segments[idx + 1].clone();
        let price_group = if idx + 2 < segments.len() {
            segments[idx + 2].clone()
        } else {
            "00".to_string()
        };
        let color_display_code = query_value(parsed.query_pairs.as_slice(), "colorDisplayCode");
        let size_display_code = query_value(parsed.query_pairs.as_slice(), "sizeDisplayCode");
        Ok(UniqloContext { region, lang, product_code, price_group, color_display_code, size_display_code, base_url })
    }

    /// Parse a Uniqlo product URL into the components needed for an API call.
    ///
    /// Expects a path shaped like `/{region}/{lang}/products/{code}/{priceGroup}`;
    /// the language defaults to `en` and the price group to `00`.
    pub fn from_url(url: &str) -> (r: Result<UniqloContext, AppError>)
        ensures
            uniqlo_context_outcome(r) == uniqlo_context_spec(url@),
    {
        match parse_url(url) {
            Ok(parsed) => UniqloContext::from_parts(&parsed),
            Err(e) => Err(AppError::Validation(concat_str("Invalid URL: ", e.as_str()))),
        }
    }

    /// Build the commerce API URL for this product's stock and price data.
    pub fn api_url(&self) -> (r: String)
        ensures
            r@ == self.base_url@ + "/"@ + self.region@ + "/api/commerce/v5/"@ + self.lang@ + "/products/"@
                + self.product_code@ + "/price-groups/"@ + self.price_group@
                + "/l2s?withPrices=true&withStocks=true&httpFailure=true"@,
    {
        let a = concat_str(self.base_url.as_str(), "/");
        let b = concat_str(a.as_str(), self.region.as_str());
        let c = concat_str(b.as_str(), "/api/commerce/v5/");
        let d = concat_str(c.as_str(), self.lang.as_str());
        let e = concat_str(d.as_str(), "/products/");
        let f = concat_str(e.as_str(), self.product_code.as_str());
        let g = concat_str(f.as_str(), "/price-groups/");
        let h = concat_str(g.as_str(), self.price_group.as_str());
        concat_str(h.as_str(), "/l2s?withPrices=true&withStocks=true&httpFailure=true")
    }

    /// The `x-fr-clientid` header value Uniqlo's SPA sends for this region.
    pub fn client_id(&self) -> (r: String)
        ensures
            r@ == "uq."@ + self.region@ + ".web-spa"@,
    {
        let a = concat_str("uq.", self.region.as_str());
        concat_str(a.as_str(), ".web-spa")
    }
}

// ---------------------------------------------------------------------------
// API response
// ---------------------------------------------------------------------------

/// One variant (color and size) of a product.
#[derive(Debug, Clone)]
pub struct L2 {
    pub color_display_code: String,
    pub size_display_code: String,
    pub l2_id: String,
}

/// A price in a currency; the value is the JSON number's text.
#[derive(Debug, Clone)]
pub struct PriceValue {
    pub currency_code: String,
    pub value: String,
}

/// A variant's base and promotional prices.
#[derive(Debug, Clone)]
pub struct PriceEntry {
    pub base: Option<PriceValue>,
    /// Promotional price; when present it's the price the customer actually pays.
    pub promo: Option<PriceValue>,
}

/// A variant's stock status code.
#[derive(Debug, Clone)]
pub struct StockEntry {
    pub status_code: String,
}

/// The `result` of an API response. `prices` and `stocks` are keyed by
/// variant id, each id occurring once.
#[derive(Debug, Clone)]
pub struct ApiResult {
    pub l2s: Vec<L2>,
    pub prices: Vec<(String, PriceEntry)>,
    pub stocks: Vec<(String, StockEntry)>,
}

/// A decoded API response.
#[derive(Debug, Clone)]
pub struct ApiResponse {
    pub status: String,
    pub result: Option<ApiResult>,
}

/// Validate a decoded commerce API response: its status must be `ok` and
/// it must carry a result.
pub fn validate_response(response: ApiResponse) -> (r: Result<ApiResult, AppError>)
    ensures
        response.status@ != "ok"@ ==> (r matches Err(e) && err_view(e) == (4int, "Uniqlo API returned status '"@ + response.status@ + "'"@)),
        response.status@ == "ok"@ && response.result is None ==> (r matches Err(e) && err_view(e) == (4int, "Uniqlo API response missing 'result'"@)),
        response.status@ == "ok"@ && response.result is Some ==> (r matches Ok(x) && x == response.result->0),
{
    if !str_eq(response.status.as_str(), "ok") {
        let a = concat_str("Uniqlo API returned status '", response.status.as_str());
        return Err(AppError::External(concat_str(a.as_str(), "'")));
    }
    match response.result {
        Some(result) => Ok(result),
        None => Err(AppError::External("Uniqlo API response missing 'result'".to_string())),
    }
}

/// Whether a variant matches the requested codes; an absent code matches any.
pub open spec fn l2_matches(l: L2, color: Option<Seq<char>>, size: Option<Seq<char>>) -> bool {
    (color is None || color == Some(l.color_display_code@)) && (size is None || size == Some(l.size_display_code@))
}

/// The first variant from index `i` on that matches.
pub open spec fn l2_index(l2s: Seq<L2>, color: Option<Seq<char>>, size: Option<Seq<char>>, i: int) -> Option<int>
    decreases l2s.len() - i,
{
    if i < 0 || i >= l2s.len() {
        None
    } else if l2_matches(l2s[i], color, size) {
        Some(i)
    } else {
        l2_index(l2s, color, size, i + 1)
    }
}

/// Which variant is targeted, or the error.
pub open spec fn target_l2_spec(l2s: Seq<L2>, color: Option<Seq<char>>, size: Option<Seq<char>>) -> Result<int, (int, Seq<char>)> {
    if l2s.len() == 0 {
        Err((4int, "No variants found in Uniqlo API response"@))
    } else {
        match l2_index(l2s, color, size, 0) {
            Some(i) => Ok(i),
            None => Err((4int, "No Uniqlo variant matched color="@ + option_debug_text(color) + ", size="@ + option_debug_text(size))),
        }
    }
}

/// The view of an optional string slice.
pub open spec fn ostr(o: Option<&str>) -> Option<Seq<char>> {
    match o {
        Some(s) => Some(s@),
        None => None,
    }
}

fn code_matches(code: Option<&str>, value: &String) -> (r: bool)
    ensures
        r == (ostr(code) is None || ostr(code) == Some(value@)),
{
    match code {
        None => true,
        Some(c) => str_eq(value.as_str(), c),
    }
}

/// Find the variant matching the URL's color and size display codes.
///
/// Codes present in the URL are matched exactly; absent codes match any
/// variant, so without codes the first variant is taken.
pub fn find_target_l2(l2s: &[L2], color_display_code: Option<&str>, size_display_code: Option<&str>) -> (r: Result<usize, AppError>)
    ensures
        match target_l2_spec(l2s@, ostr(color_display_code), ostr(size_display_code)) {
            Ok(i) => r matches Ok(k) && k as int == i,
            Err(e) => r matches Err(err) && err_view(err) == e,
        },
{
    if l2s.len() == 0 {
        return Err(AppError::External("No variants found in Uniqlo API response".to_string()));
    }
    let mut i: usize = 0;
    while i < l2s.len()
        invariant
            i <= l2s@.len(),
            l2s@.len() > 0,
            l2_index(l2s@, ostr(color_display_code), ostr(size_display_code), 0)
                == l2_index(l2s@, ostr(color_display_code), ostr(size_display_code), i as int),
        decreases l2s.len() - i,
    {
        if code_matches(color_display_code, &l2s[i].color_display_code)
            && code_matches(size_display_code, &l2s[i].size_display_code) {
            return Ok(i);
        }
        i = i + 1;
    }
    let a = concat_str("No Uniqlo variant matched color=", debug_option_str(color_display_code).as_str());
    let b = concat_str(a.as_str(), ", size=");
    Err(AppError::External(concat_str(b.as_str(), debug_option_str(size_display_code).as_str())))
}

/// The status an uppercased Uniqlo stock code names.
pub open spec fn stock_status(u: Seq<char>) -> AvailabilityStatus {
    if u == "IN_STOCK"@ || u == "LOW_STOCK"@ || u == "BACK_IN_STOCK"@ {
        AvailabilityStatus::InStock
    } else if u == "STOCK_OUT"@ || u == "SOLD_OUT"@ || u == "OUT_OF_STOCK"@ {
        AvailabilityStatus::OutOfStock
    } else {
        AvailabilityStatus::Unknown
    }
}

/// Map a Uniqlo stock `statusCode` to an availability status (compared
/// after uppercasing).
pub fn map_stock_status(status_code: &str) -> (r: AvailabilityStatus)
    ensures
        r == stock_status(unicode_upper(status_code@)),
{
    let upper = to_upper(status_code);
    let u = chars_of(upper.as_str());
    let u = u.as_slice();
    if chars_eq_str(u, "IN_STOCK") || chars_eq_str(u, "LOW_STOCK") || chars_eq_str(u, "BACK_IN_STOCK") {
        AvailabilityStatus::InStock
    } else if chars_eq_str(u, "STOCK_OUT") || chars_eq_str(u, "SOLD_OUT") || chars_eq_str(u, "OUT_OF_STOCK") {
        AvailabilityStatus::OutOfStock
    } else {
        AvailabilityStatus::Unknown
    }
}

/// The price of an entry: the promo price if there is one, else the base
/// price, in its currency; nothing when neither is given.
pub open spec fn entry_price(e: PriceEntry) -> (Option<i64>, Option<Seq<char>>, Option<Seq<char>>) {
    let chosen = if e.promo is Some { e.promo } else { e.base };
    match chosen {
        None => (None, None, None),
        Some(v) => (price_minor_spec(v.value@, multiplier_for(Some(v.currency_code@))), Some(v.currency_code@), Some(v.value@)),
    }
}

/// Build price info from an API price entry, preferring the promo price.
pub fn extract_price(entry: &PriceEntry) -> (r: PriceInfo)
    ensures
        price_view(r) == entry_price(*entry),
{
    let chosen = match &entry.promo {
        Some(p) => p,
        None => match &entry.base {
            Some(b) => b,
            None => {
                return PriceInfo { price_minor_units: None, price_currency: None, raw_price: None };
            },
        },
    };
    let raw_price = chosen.value.clone();
    let currency = chosen.currency_code.clone();
    let price_minor_units = parse_price_to_minor_units(raw_price.as_str(), Some(currency.as_str()));
    PriceInfo { price_minor_units, price_currency: Some(currency), raw_price: Some(raw_price) }
}

/// The first entry from index `i` on whose key is `key`.
pub open spec fn key_index<V>(entries: Seq<(String, V)>, key: Seq<char>, i: int) -> Option<int>
    decreases entries.len() - i,
{
    if i < 0 || i >= entries.len() {
        None
    } else if entries[i].0@ == key {
        Some(i)
    } else {
        key_index(entries, key, i + 1)
    }
}

fn find_key<V>(entries: &[(String, V)], key: &str) -> (r: Option<usize>)
    ensures
        match r {
            Some(k) => key_index(entries@, key@, 0) == Some(k as int),
            None => key_index(entries@, key@, 0) is None,
        },
{
    let mut i: usize = 0;
    while i < entries.len()
        invariant
            i <= entries@.len(),
            key_index(entries@, key@, 0) == key_index(entries@, key@, i as int),
        decreases entries.len() - i,
    {
        if str_eq(entries[i].0.as_str(), key) {
            return Some(i);
        }
        i = i + 1;
    }
    None
}

/// The result for a variant id: its stock status (unknown without a stock
/// entry), its status code as raw availability, and its price.
pub open spec fn l2_result(result: ApiResult, id: Seq<char>) -> (AvailabilityStatus, Option<Seq<char>>, (Option<i64>, Option<Seq<char>>, Option<Seq<char>>)) {
    let status = match key_index(result.stocks@, id, 0) {
        Some(k) => stock_status(unicode_upper(result.stocks@[k].1.status_code@)),
        None => AvailabilityStatus::Unknown,
    };
    let raw = match key_index(result.stocks@, id, 0) {
        Some(k) => Some(result.stocks@[k].1.status_code@),
        None => None,
    };
    let price = match key_index(result.prices@, id, 0) {
        Some(k) => entry_price(result.prices@[k].1),
        None => (None, None, None),
    };
    (status, raw, price)
}

/// What `build_result` gives.
pub open spec fn uniqlo_result_spec(result: ApiResult, color: Option<Seq<char>>, size: Option<Seq<char>>) -> Result<
    (AvailabilityStatus, Option<Seq<char>>, (Option<i64>, Option<Seq<char>>, Option<Seq<char>>)),
    (int, Seq<char>),
> {
    match target_l2_spec(result.l2s@, color, size) {
        Err(e) => Err(e),
        Ok(i) => Ok(l2_result(result, result.l2s@[i].l2_id@)),
    }
}

proof fn lemma_l2_index_bounds(l2s: Seq<L2>, color: Option<Seq<char>>, size: Option<Seq<char>>, i: int)
    ensures
        l2_index(l2s, color, size, i) matches Some(k) ==> i <= k < l2s.len(),
    decreases l2s.len() - i,
{
    if !(i < 0 || i >= l2s.len()) && !l2_matches(l2s[i], color, size) {
        lemma_l2_index_bounds(l2s, color, size, i + 1);
    }
}

proof fn lemma_key_index_bounds<V>(entries: Seq<(String, V)>, key: Seq<char>, i: int)
    ensures
        key_index(entries, key, i) matches Some(k) ==> i <= k < entries.len(),
    decreases entries.len() - i,
{
    if !(i < 0 || i >= entries.len()) && entries[i].0@ != key {
        lemma_key_index_bounds(entries, key, i + 1);
    }
}

/// Resolve the target variant and build a `ScrapingResult` from its price
/// and stock.
pub fn build_result(result: &ApiResult, color_display_code: Option<&str>, size_display_code: Option<&str>) -> (r: Result<ScrapingResult, AppError>)
    ensures
        outcome_view(r) == uniqlo_result_spec(*result, ostr(color_display_code), ostr(size_display_code)),
{
    let idx = match find_target_l2(result.l2s.as_slice(), color_display_code, size_display_code) {
        Ok(i) => i,
        Err(e) => {
            return Err(e);
        },
    };
    proof {
        lemma_l2_index_bounds(result.l2s@, ostr(color_display_code), ostr(size_display_code), 0);
    }
    let id = result.l2s[idx].l2_id.as_str();
    let stock = find_key(result.stocks.as_slice(), id);
    proof {
        lemma_key_index_bounds(result.stocks@, id@, 0);
        lemma_key_index_bounds(result.prices@, id@, 0);
    }
    let (status, raw_availability) = match stock {
        Some(k) => (map_stock_status(result.stocks[k].1.status_code.as_str()), Some(result.stocks[k].1.status_code.clone())),
        None => (AvailabilityStatus::Unknown, None),
    };
    let price = match find_key(result.prices.as_slice(), id) {
        Some(k) => extract_price(&result.prices[k].1),
        None => PriceInfo { price_minor_units: None, price_currency: None, raw_price: None },
    };
    Ok(ScrapingResult { status, raw_availability, price })
}

} // verus!
