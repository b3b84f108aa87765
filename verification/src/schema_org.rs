//! Schema.org JSON-LD parsing for extracting product availability and price data.

use vstd::prelude::*;
use crate::error::{concat_str, err_view, AppError};
use crate::gtm::str_member;
use crate::html::{inner_html_of_matches, select_inner_html};
use crate::json::{as_array_spec, as_str_spec, get_spec, has_key, json_parse, parse_json, JsonValue};
use crate::price::{get_price_from_offer, offer_price_spec, price_view, PriceInfo};
use crate::scraping::{scraping_view, ScrapingResult};
use crate::status::{schema_org_status, AvailabilityStatus};
use crate::text::{str_eq, unicode_lower};
use crate::url::{join_url, parse_url, url_join, url_parse, UrlSpec};

verus! {

/// An availability text with the price read beside it.
pub open spec fn avail_view(r: Option<(String, PriceInfo)>) -> Option<(Seq<char>, (Option<i64>, Option<Seq<char>>, Option<Seq<char>>))> {
    match r {
        Some((a, p)) => Some((a@, price_view(p))),
        None => None,
    }
}

/// The first of two optional availability results that is present.
pub open spec fn or_avail(
    a: Option<(Seq<char>, (Option<i64>, Option<Seq<char>>, Option<Seq<char>>))>,
    b: Option<(Seq<char>, (Option<i64>, Option<Seq<char>>, Option<Seq<char>>))>,
) -> Option<(Seq<char>, (Option<i64>, Option<Seq<char>>, Option<Seq<char>>))> {
    if a is Some {
        a
    } else {
        b
    }
}

// ---------------------------------------------------------------------------
// JSON-LD blocks and the variant query parameter
// ---------------------------------------------------------------------------

/// The selector for JSON-LD scripts.
pub open spec fn json_ld_selector() -> Seq<char> {
    "script[type=\"application/ld+json\"]"@
}

/// The blocks among script texts that parse as JSON, in order.
pub open spec fn parsed_blocks(texts: Seq<Seq<char>>) -> Seq<JsonValue>
    decreases texts.len(),
{
    if texts.len() == 0 {
        Seq::empty()
    } else {
        let prev = parsed_blocks(texts.drop_last());
        match json_parse(texts.last()) {
            Some(v) => prev.push(v),
            None => prev,
        }
    }
}

/// The JSON values of the script texts that parse, in order.
pub fn parse_json_blocks(texts: &[String]) -> (r: Vec<JsonValue>)
    ensures
        r@ == parsed_blocks(texts@.map_values(|t: String| t@)),
{
    let ghost tv = texts@.map_values(|t: String| t@);
    let mut out: Vec<JsonValue> = Vec::new();
    let mut i: usize = 0;
    while i < texts.len()
        invariant
            tv == texts@.map_values(|t: String| t@),
            i <= texts@.len(),
            out@ == parsed_blocks(tv.take(i as int)),
        decreases texts.len() - i,
    {
        match parse_json(texts[i].as_str()) {
            Some(v) => out.push(v),
            None => {},
        }
        proof {
            assert(tv.take(i + 1).drop_last() =~= tv.take(i as int));
            assert(tv.take(i + 1).last() == texts@[i as int]@);
        }
        i = i + 1;
    }
    assert(tv.take(tv.len() as int) =~= tv);
    out
}

/// Extract all JSON-LD blocks from HTML: the contents of every
/// `<script type="application/ld+json">` that parse as JSON.
pub fn extract_json_ld_blocks(html: &str) -> (r: Result<Vec<JsonValue>, AppError>)
    ensures
        match select_inner_html(html@, json_ld_selector()) {
            Ok(texts) => r matches Ok(v) && v@ == parsed_blocks(texts),
            Err(e) => r matches Err(err) && err_view(err) == (4int, "Invalid selector: "@ + e),
        },
{
    match inner_html_of_matches(html, "script[type=\"application/ld+json\"]") {
        Ok(texts) => Ok(parse_json_blocks(texts.as_slice())),
        Err(e) => Err(AppError::External(concat_str("Invalid selector: ", e.as_str()))),
    }
}

/// The value of the first query pair from index `i` on whose key is `key`.
pub open spec fn first_pair_value(pairs: Seq<(Seq<char>, Seq<char>)>, key: Seq<char>, i: int) -> Option<Seq<char>>
    decreases pairs.len() - i,
{
    if i < 0 || i >= pairs.len() {
        None
    } else if pairs[i].0 == key {
        Some(pairs[i].1)
    } else {
        first_pair_value(pairs, key, i + 1)
    }
}

/// The variant id a URL names in its query.
pub open spec fn variant_id_spec(url: Seq<char>) -> Option<Seq<char>> {
    match url_parse(url) {
        Ok(u) => first_pair_value(u.query_pairs, "variant"@, 0),
        Err(_) => None,
    }
}

/// The value of the first query pair whose key is `key`.
pub fn query_value(pairs: &[(String, String)], key: &str) -> (r: Option<String>)
    ensures
        match r {
            Some(v) => first_pair_value(crate::url::pairs_view(pairs@), key@, 0) == Some(v@),
            None => first_pair_value(crate::url::pairs_view(pairs@), key@, 0) is None,
        },
{
    let ghost pv = crate::url::pairs_view(pairs@);
    let mut i: usize = 0;
    while i < pairs.len()
        invariant
            pv == crate::url::pairs_view(pairs@),
            i <= pairs@.len(),
            first_pair_value(pv, key@, 0) == first_pair_value(pv, key@, i as int),
        decreases pairs.len() - i,
    {
        if str_eq(pairs[i].0.as_str(), key) {
            return Some(pairs[i].1.clone());
        }
        i = i + 1;
    }
    None
}

/// Extract the variant ID from a URL's `variant` query parameter.
pub fn extract_variant_id(url: &str) -> (r: Option<String>)
    ensures
        crate::json::opt_view(r) == variant_id_spec(url@),
{
    match parse_url(url) {
        Ok(parsed) => query_value(parsed.query_pairs.as_slice(), "variant"),
        Err(_) => None,
    }
}

// ---------------------------------------------------------------------------
// Types
// ---------------------------------------------------------------------------

/// Whether a JSON `@type` is `t`, or an array holding the string `t`.
pub open spec fn has_schema_type(v: JsonValue, t: Seq<char>) -> bool {
    match get_spec(v, "@type"@) {
        Some(JsonValue::String(s)) => s@ == t,
        Some(JsonValue::Array(a)) => exists|i: int| 0 <= i < a@.len() && as_str_spec(Some(#[trigger] a@[i])) == Some(t),
        _ => false,
    }
}

/// Whether a JSON object lacks a usable `@type`: absent, null, an empty
/// string or an empty array.
pub open spec fn lacks_type(v: JsonValue) -> bool {
    match get_spec(v, "@type"@) {
        None => true,
        Some(JsonValue::Null) => true,
        Some(JsonValue::String(s)) => s@.len() == 0,
        Some(JsonValue::Array(a)) => a@.len() == 0,
        _ => false,
    }
}

/// Whether the object carries a non-empty `hasVariant` array.
pub open spec fn has_variants(v: JsonValue) -> bool {
    match as_array_spec(get_spec(v, "hasVariant"@)) {
        Some(a) => a.len() > 0,
        None => false,
    }
}

/// A Product: typed so, or typeless with offers and no variants.
pub open spec fn is_product(v: JsonValue) -> bool {
    has_schema_type(v, "Product"@) || (lacks_type(v) && has_key(v, "offers"@) && !has_variants(v))
}

/// A ProductGroup: typed so, or typeless with a non-empty `hasVariant`.
pub open spec fn is_product_group(v: JsonValue) -> bool {
    has_schema_type(v, "ProductGroup"@) || (lacks_type(v) && has_variants(v))
}

/// Check if a JSON `@type` field matches the expected type.
fn has_type(json: &JsonValue, expected: &str) -> (r: bool)
    ensures
        r == has_schema_type(*json, expected@),
{
    match json.get("@type") {
        Some(JsonValue::String(s)) => str_eq(s.as_str(), expected),
        Some(JsonValue::Array(a)) => {
            let mut i: usize = 0;
            while i < a.len()
                invariant
                    i <= a@.len(),
                    get_spec(*json, "@type"@) == Some(JsonValue::Array(*a)),
                    forall|k: int| 0 <= k < i ==> as_str_spec(Some(#[trigger] a@[k])) != Some(expected@),
                decreases a.len() - i,
            {
                match a[i].as_str() {
                    Some(s) => {
                        if str_eq(s, expected) {
                            assert(as_str_spec(Some(a@[i as int])) == Some(expected@));
                            return true;
                        }
                    },
                    None => {},
                }
                i = i + 1;
            }
            false
        },
        _ => false,
    }
}

fn lacks_type_exec(json: &JsonValue) -> (r: bool)
    ensures
        r == lacks_type(*json),
{
    match json.get("@type") {
        None => true,
        Some(JsonValue::Null) => true,
        Some(JsonValue::String(s)) => s.as_str().is_empty(),
        Some(JsonValue::Array(a)) => a.len() == 0,
        _ => false,
    }
}

fn has_variants_exec(json: &JsonValue) -> (r: bool)
    ensures
        r == has_variants(*json),
{
    match json.get("hasVariant") {
        Some(v) => match v.as_array() {
            Some(a) => a.len() > 0,
            None => false,
        },
        None => false,
    }
}

/// Check if a JSON value represents a Product type (see `is_product`).
pub fn is_product_type(json: &JsonValue) -> (r: bool)
    ensures
        r == is_product(*json),
{
    has_type(json, "Product") || (lacks_type_exec(json) && json.get("offers").is_some() && !has_variants_exec(json))
}

/// Check if a JSON value represents a ProductGroup type (see `is_product_group`).
pub fn is_product_group_type(json: &JsonValue) -> (r: bool)
    ensures
        r == is_product_group(*json),
{
    has_type(json, "ProductGroup") || (lacks_type_exec(json) && has_variants_exec(json))
}

// ---------------------------------------------------------------------------
// Offers and variants
// ---------------------------------------------------------------------------

/// An offer's availability text and price, when it has availability.
pub open spec fn offer_avail(offer: JsonValue, url: Seq<char>) -> Option<(Seq<char>, (Option<i64>, Option<Seq<char>>, Option<Seq<char>>))> {
    match str_member(offer, "availability"@) {
        Some(a) => Some((a, offer_price_spec(offer, url))),
        None => None,
    }
}

/// The first offer from index `i` on that has availability.
pub open spec fn offers_from(offers: Seq<JsonValue>, url: Seq<char>, i: int) -> Option<(Seq<char>, (Option<i64>, Option<Seq<char>>, Option<Seq<char>>))>
    decreases offers.len() - i,
{
    if i < 0 || i >= offers.len() {
        None
    } else if offer_avail(offers[i], url) is Some {
        offer_avail(offers[i], url)
    } else {
        offers_from(offers, url, i + 1)
    }
}

/// A product's availability and price: from `offers` as a single offer
/// with availability, else from the first offer of an `offers` array that
/// has availability.
pub open spec fn product_avail(product: JsonValue, url: Seq<char>) -> Option<(Seq<char>, (Option<i64>, Option<Seq<char>>, Option<Seq<char>>))> {
    match get_spec(product, "offers"@) {
        None => None,
        Some(o) => if offer_avail(o, url) is Some {
            offer_avail(o, url)
        } else {
            match as_array_spec(Some(o)) {
                Some(a) => offers_from(a, url, 0),
                None => None,
            }
        },
    }
}

/// The first variant from index `i` on with availability.
pub open spec fn first_variant_from(vs: Seq<JsonValue>, url: Seq<char>, i: int) -> Option<(Seq<char>, (Option<i64>, Option<Seq<char>>, Option<Seq<char>>))>
    decreases vs.len() - i,
{
    if i < 0 || i >= vs.len() {
        None
    } else if product_avail(vs[i], url) is Some {
        product_avail(vs[i], url)
    } else {
        first_variant_from(vs, url, i + 1)
    }
}

/// A variant `@id` resolved as a URL: absolute, or against `http://localhost`.
pub open spec fn resolve_id(id: Seq<char>) -> Result<UrlSpec, Seq<char>> {
    match url_parse(id) {
        Ok(u) => Ok(u),
        Err(_) => url_join("http://localhost"@, id),
    }
}

/// Whether a variant's `@id` carries the query pair `variant=vid`.
pub open spec fn variant_matches(v: JsonValue, vid: Seq<char>) -> bool {
    match str_member(v, "@id"@) {
        Some(id) => match resolve_id(id) {
            Ok(u) => exists|k: int| 0 <= k < u.query_pairs.len() && #[trigger] u.query_pairs[k] == ("variant"@, vid),
            Err(_) => false,
        },
        None => false,
    }
}

/// The first variant from index `i` on that matches `vid` and has availability.
pub open spec fn by_id_from(vs: Seq<JsonValue>, vid: Seq<char>, url: Seq<char>, i: int) -> Option<(Seq<char>, (Option<i64>, Option<Seq<char>>, Option<Seq<char>>))>
    decreases vs.len() - i,
{
    if i < 0 || i >= vs.len() {
        None
    } else if variant_matches(vs[i], vid) && product_avail(vs[i], url) is Some {
        product_avail(vs[i], url)
    } else {
        by_id_from(vs, vid, url, i + 1)
    }
}

/// A ProductGroup's availability: the variant matching `vid` if any, else
/// the first variant with availability.
pub open spec fn group_avail(g: JsonValue, vid: Option<Seq<char>>, url: Seq<char>) -> Option<(Seq<char>, (Option<i64>, Option<Seq<char>>, Option<Seq<char>>))> {
    match as_array_spec(get_spec(g, "hasVariant"@)) {
        None => None,
        Some(vs) => match vid {
            None => first_variant_from(vs, url, 0),
            Some(v) => or_avail(by_id_from(vs, v, url, 0), first_variant_from(vs, url, 0)),
        },
    }
}

/// What one item of a list yields.
pub open spec fn item_avail(item: JsonValue, vid: Option<Seq<char>>, url: Seq<char>) -> Option<(Seq<char>, (Option<i64>, Option<Seq<char>>, Option<Seq<char>>))> {
    if is_product(item) && product_avail(item, url) is Some {
        product_avail(item, url)
    } else if is_product_group(item) {
        group_avail(item, vid, url)
    } else {
        None
    }
}

/// The first item from index `i` on that yields availability.
pub open spec fn items_from(items: Seq<JsonValue>, vid: Option<Seq<char>>, url: Seq<char>, i: int) -> Option<(Seq<char>, (Option<i64>, Option<Seq<char>>, Option<Seq<char>>))>
    decreases items.len() - i,
{
    if i < 0 || i >= items.len() {
        None
    } else if item_avail(items[i], vid, url) is Some {
        item_avail(items[i], vid, url)
    } else {
        items_from(items, vid, url, i + 1)
    }
}

/// What `extract_availability_and_price` gives.
pub open spec fn extraction_spec(json: JsonValue, vid: Option<Seq<char>>, url: Seq<char>) -> Option<(Seq<char>, (Option<i64>, Option<Seq<char>>, Option<Seq<char>>))> {
    let direct = if is_product(json) {
        product_avail(json, url)
    } else {
        None
    };
    let group = if is_product_group(json) {
        group_avail(json, vid, url)
    } else {
        None
    };
    let graph = match as_array_spec(get_spec(json, "@graph"@)) {
        Some(a) => items_from(a, vid, url, 0),
        None => None,
    };
    let list = match as_array_spec(Some(json)) {
        Some(a) => items_from(a, vid, url, 0),
        None => None,
    };
    or_avail(direct, or_avail(group, or_avail(graph, list)))
}

fn offer_availability(offer: &JsonValue, url: &str) -> (r: Option<(String, PriceInfo)>)
    ensures
        avail_view(r) == offer_avail(*offer, url@),
{
    match offer.get("availability") {
        Some(a) => match a.as_str() {
            Some(s) => Some((s.to_string(), get_price_from_offer(offer, url))),
            None => None,
        },
        None => None,
    }
}

/// Get availability and price from a Product JSON object: a single offer
/// with availability, or the first such offer of an offers array.
pub fn get_availability_and_price_from_product(product: &JsonValue, url: &str) -> (r: Option<(String, PriceInfo)>)
    ensures
        avail_view(r) == product_avail(*product, url@),
{
    let offers = match product.get("offers") {
        Some(o) => o,
        None => {
            return None;
        },
    };
    let single = offer_availability(offers, url);
    if single.is_some() {
        return single;
    }
    match offers.as_array() {
        Some(arr) => {
            let mut i: usize = 0;
            while i < arr.len()
                invariant
                    i <= arr@.len(),
                    get_spec(*product, "offers"@) == Some(*offers),
                    offer_avail(*offers, url@) is None,
                    as_array_spec(Some(*offers)) == Some(arr@),
                    offers_from(arr@, url@, 0) == offers_from(arr@, url@, i as int),
                decreases arr.len() - i,
            {
                let r = offer_availability(&arr[i], url);
                if r.is_some() {
                    return r;
                }
                i = i + 1;
            }
            None
        },
        None => None,
    }
}

/// Get the first variant's availability and price.
pub fn get_first_variant_availability(variants: &[JsonValue], url: &str) -> (r: Option<(String, PriceInfo)>)
    ensures
        avail_view(r) == first_variant_from(variants@, url@, 0),
{
    let mut i: usize = 0;
    while i < variants.len()
        invariant
            i <= variants@.len(),
            first_variant_from(variants@, url@, 0) == first_variant_from(variants@, url@, i as int),
        decreases variants.len() - i,
    {
        let r = get_availability_and_price_from_product(&variants[i], url);
        if r.is_some() {
            return r;
        }
        i = i + 1;
    }
    None
}

/// Whether a list of query pairs holds `key=value`.
fn has_pair(pairs: &[(String, String)], key: &str, value: &str) -> (r: bool)
    ensures
        r == exists|k: int| 0 <= k < pairs@.len() && #[trigger] crate::url::pairs_view(pairs@)[k] == (key@, value@),
{
    let ghost pv = crate::url::pairs_view(pairs@);
    let mut i: usize = 0;
    while i < pairs.len()
        invariant
            pv == crate::url::pairs_view(pairs@),
            i <= pairs@.len(),
            forall|k: int| 0 <= k < i ==> #[trigger] pv[k] != (key@, value@),
        decreases pairs.len() - i,
    {
        if str_eq(pairs[i].0.as_str(), key) && str_eq(pairs[i].1.as_str(), value) {
            assert(pv[i as int] == (key@, value@));
            return true;
        }
        i = i + 1;
    }
    false
}

/// Whether a variant's `@id` URL carries `variant=vid` in its query.
pub fn variant_id_matches(variant: &JsonValue, vid: &str) -> (r: bool)
    ensures
        r == variant_matches(*variant, vid@),
{
    let id = match variant.get("@id") {
        Some(i) => match i.as_str() {
            Some(s) => s,
            None => {
                return false;
            },
        },
        None => {
            return false;
        },
    };
    let resolved = match parse_url(id) {
        Ok(u) => Ok(u),
        Err(_) => join_url("http://localhost", id),
    };
    match resolved {
        Ok(u) => {
            assert(resolve_id(id@) == Ok::<UrlSpec, Seq<char>>(u@));
            let r = has_pair(u.query_pairs.as_slice(), "variant", vid);
            proof {
                let pv = crate::url::pairs_view(u.query_pairs@);
                assert(pv == u@.query_pairs);
                assert(pv.len() == u.query_pairs@.len());
            }
            r
        },
        Err(_) => false,
    }
}

/// Find a variant whose `@id` URL names `vid`, and has availability.
pub fn find_variant_by_id(variants: &[JsonValue], vid: &str, url: &str) -> (r: Option<(String, PriceInfo)>)
    ensures
        avail_view(r) == by_id_from(variants@, vid@, url@, 0),
{
    let mut i: usize = 0;
    while i < variants.len()
        invariant
            i <= variants@.len(),
            by_id_from(variants@, vid@, url@, 0) == by_id_from(variants@, vid@, url@, i as int),
        decreases variants.len() - i,
    {
        if variant_id_matches(&variants[i], vid) {
            let r = get_availability_and_price_from_product(&variants[i], url);
            if r.is_some() {
                return r;
            }
        }
        i = i + 1;
    }
    None
}

/// The view of an optional string slice.
pub open spec fn opt_str(o: Option<&str>) -> Option<Seq<char>> {
    match o {
        Some(s) => Some(s@),
        None => None,
    }
}

/// Get availability and price from a ProductGroup: the variant matching the
/// variant ID if one is given and found, else the first variant with
/// availability.
pub fn get_availability_and_price_from_product_group(group: &JsonValue, variant_id: Option<&str>, url: &str) -> (r: Option<(String, PriceInfo)>)
    ensures
        avail_view(r) == group_avail(*group, opt_str(variant_id), url@),
{
    let variants = match group.get("hasVariant") {
        Some(v) => match v.as_array() {
            Some(a) => a,
            None => {
                return None;
            },
        },
        None => {
            return None;
        },
    };
    match variant_id {
        None => get_first_variant_availability(variants.as_slice(), url),
        Some(vid) => {
            let matched = find_variant_by_id(variants.as_slice(), vid, url);
            if matched.is_some() {
                return matched;
            }
            get_first_variant_availability(variants.as_slice(), url)
        },
    }
}

fn item_availability(item: &JsonValue, variant_id: Option<&str>, url: &str) -> (r: Option<(String, PriceInfo)>)
    ensures
        avail_view(r) == item_avail(*item, opt_str(variant_id), url@),
{
    if is_product_type(item) {
        let r = get_availability_and_price_from_product(item, url);
        if r.is_some() {
            return r;
        }
    }
    if is_product_group_type(item) {
        return get_availability_and_price_from_product_group(item, variant_id, url);
    }
    None
}

/// Iterate through items looking for availability and price data.
pub fn find_availability_and_price_in_items(items: &[JsonValue], variant_id: Option<&str>, url: &str) -> (r: Option<(String, PriceInfo)>)
    ensures
        avail_view(r) == items_from(items@, opt_str(variant_id), url@, 0),
{
    let mut i: usize = 0;
    while i < items.len()
        invariant
            i <= items@.len(),
            items_from(items@, opt_str(variant_id), url@, 0) == items_from(items@, opt_str(variant_id), url@, i as int),
        decreases items.len() - i,
    {
        let r = item_availability(&items[i], variant_id, url);
        if r.is_some() {
            return r;
        }
        i = i + 1;
    }
    None
}

/// Extract availability and price from a JSON-LD value, trying in order:
/// 1. a direct Product with offers;
/// 2. a ProductGroup with `hasVariant` (matched by variant ID, else the
///    first variant);
/// 3. an `@graph` array of Product or ProductGroup items;
/// 4. a top-level array of such items.
pub fn extract_availability_and_price(json: &JsonValue, variant_id: Option<&str>, url: &str) -> (r: Option<(String, PriceInfo)>)
    ensures
        avail_view(r) == extraction_spec(*json, opt_str(variant_id), url@),
{
    if is_product_type(json) {
        let r = get_availability_and_price_from_product(json, url);
        if r.is_some() {
            return r;
        }
    }
    if is_product_group_type(json) {
        let r = get_availability_and_price_from_product_group(json, variant_id, url);
        if r.is_some() {
            return r;
        }
    }
    match json.get("@graph") {
        Some(g) => match g.as_array() {
            Some(arr) => {
                let r = find_availability_and_price_in_items(arr.as_slice(), variant_id, url);
                if r.is_some() {
                    return r;
                }
            },
            None => {},
        },
        None => {},
    }
    match json.as_array() {
        Some(arr) => find_availability_and_price_in_items(arr.as_slice(), variant_id, url),
        None => None,
    }
}

// ---------------------------------------------------------------------------
// A page's JSON-LD result
// ---------------------------------------------------------------------------

/// The availability and price of the first block, from index `i` on, that
/// gives one.
pub open spec fn first_extraction(
    blocks: Seq<JsonValue>,
    vid: Option<Seq<char>>,
    url: Seq<char>,
    i: int,
) -> Option<(Seq<char>, (Option<i64>, Option<Seq<char>>, Option<Seq<char>>))>
    decreases blocks.len() - i,
{
    if i < 0 || i >= blocks.len() {
        None
    } else {
        match extraction_spec(blocks[i], vid, url) {
            Some(x) => Some(x),
            None => first_extraction(blocks, vid, url, i + 1),
        }
    }
}

/// What a page's JSON-LD gives: the first block that names an availability,
/// read with the variant the URL selects; the status is the Schema.org
/// value's status and the raw availability the value itself.
pub open spec fn json_ld_result_spec(html: Seq<char>, url: Seq<char>) -> Result<
    Option<(AvailabilityStatus, Option<Seq<char>>, (Option<i64>, Option<Seq<char>>, Option<Seq<char>>))>,
    (int, Seq<char>),
> {
    match select_inner_html(html, json_ld_selector()) {
        Err(e) => Err((4int, "Invalid selector: "@ + e)),
        Ok(texts) => match first_extraction(parsed_blocks(texts), variant_id_spec(url), url, 0) {
            Some((a, p)) => Ok(Some((schema_org_status(unicode_lower(a)), Some(a), p))),
            None => Ok(None),
        },
    }
}

/// The view of an optional scraping result, or of the error.
pub open spec fn opt_outcome_view(r: Result<Option<ScrapingResult>, AppError>) -> Result<
    Option<(AvailabilityStatus, Option<Seq<char>>, (Option<i64>, Option<Seq<char>>, Option<Seq<char>>))>,
    (int, Seq<char>),
> {
    match r {
        Ok(Some(x)) => Ok(Some(scraping_view(x))),
        Ok(None) => Ok(None),
        Err(e) => Err(err_view(e)),
    }
}

/// The scraping result a page's JSON-LD gives, if any block names an
/// availability (see `json_ld_result_spec`).
pub fn json_ld_result(html: &str, url: &str) -> (r: Result<Option<ScrapingResult>, AppError>)
    ensures
        opt_outcome_view(r) == json_ld_result_spec(html@, url@),
{
    let blocks = match extract_json_ld_blocks(html) {
        Ok(b) => b,
        Err(e) => return Err(e),
    };
    let vid = extract_variant_id(url);
    let vid_ref: Option<&str> = match &vid {
        Some(v) => Some(v.as_str()),
        None => None,
    };
    let ghost vid_view = crate::json::opt_view(vid);
    assert(opt_str(vid_ref) == vid_view);
    let mut i: usize = 0;
    while i < blocks.len()
        invariant
            i <= blocks@.len(),
            opt_str(vid_ref) == variant_id_spec(url@),
            select_inner_html(html@, json_ld_selector()) matches Ok(texts) && blocks@ == parsed_blocks(texts),
            first_extraction(blocks@, opt_str(vid_ref), url@, 0) == first_extraction(blocks@, opt_str(vid_ref), url@, i as int),
        decreases blocks.len() - i,
    {
        match extract_availability_and_price(&blocks[i], vid_ref, url) {
            Some((availability, price)) => {
                let status = AvailabilityStatus::from_schema_org(availability.as_str());
                return Ok(Some(ScrapingResult { status, raw_availability: Some(availability), price }));
            },
            None => {},
        }
        i = i + 1;
    }
    Ok(None)
}

} // verus!
