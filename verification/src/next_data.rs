//! Store adapters that read product data from Next.js page props:
//! Chemist Warehouse and Decathlon Australia.

use vstd::prelude::*;
use crate::error::AppError;
use crate::gtm::str_member;
use crate::html::{inner_html_of_matches, select_inner_html};
use crate::json::{json_parse, parse_json, as_array_spec, as_bool_spec, as_str_spec, get_opt, get_spec, has_key, opt_view, scalar_text, value_as_string, JsonValue};
use crate::price::{multiplier_for, parse_price_to_minor_units, price_minor_spec, price_view, PriceInfo};
use crate::scraping::{outcome_view, ScrapingResult};
use crate::status::AvailabilityStatus;
use crate::text::{chars_eq_str, chars_of, contains_str, has_sub, to_lower, unicode_lower};

verus! {

// ---------------------------------------------------------------------------
// Chemist Warehouse
// ---------------------------------------------------------------------------

/// Check if the URL is for Chemist Warehouse.
pub fn is_chemist_warehouse_url(url: &str) -> (r: bool)
    ensures
        r == has_sub(url@, "chemistwarehouse.com.au"@),
{
    let u = chars_of(url);
    contains_str(u.as_slice(), "chemistwarehouse.com.au")
}

/// A value has typical product fields: an identifier (name, sku or
/// productName) and stock or price information.
pub open spec fn product_fields(v: JsonValue) -> bool {
    let has_identifier = has_key(v, "name"@) || has_key(v, "sku"@) || has_key(v, "productName"@);
    let has_stock_info = has_key(v, "availability"@) || has_key(v, "stock"@) || has_key(v, "stockStatus"@)
        || has_key(v, "inStock"@) || has_key(v, "price"@);
    has_identifier && has_stock_info
}

/// Where the product data lies in the page props: `product`,
/// `productDetail`, `data.product`, or the props themselves.
pub open spec fn product_data(props: JsonValue) -> Option<JsonValue> {
    let product = get_spec(props, "product"@);
    let detail = get_spec(props, "productDetail"@);
    let nested = get_opt(get_spec(props, "data"@), "product"@);
    if product matches Some(p) && product_fields(p) {
        product
    } else if detail matches Some(d) && product_fields(d) {
        detail
    } else if nested matches Some(n) && product_fields(n) {
        nested
    } else if product_fields(props) {
        Some(props)
    } else {
        None
    }
}

/// The availability text of product data: `availability`, `stockStatus` or
/// `stock` as a string, else a boolean `inStock` as in-stock/out-of-stock.
pub open spec fn availability_text(p: JsonValue) -> Option<Seq<char>> {
    if str_member(p, "availability"@) is Some {
        str_member(p, "availability"@)
    } else if str_member(p, "stockStatus"@) is Some {
        str_member(p, "stockStatus"@)
    } else if str_member(p, "stock"@) is Some {
        str_member(p, "stock"@)
    } else {
        match as_bool_spec(get_spec(p, "inStock"@)) {
            Some(true) => Some("in-stock"@),
            Some(false) => Some("out-of-stock"@),
            None => None,
        }
    }
}

/// The status a lowercased Chemist Warehouse availability text names.
pub open spec fn chemist_status(n: Seq<char>) -> AvailabilityStatus {
    if n == "in-stock"@ || n == "instock"@ || n == "in stock"@ || n == "available"@ {
        AvailabilityStatus::InStock
    } else if n == "out-of-stock"@ || n == "outofstock"@ || n == "out of stock"@ || n == "unavailable"@
        || n == "sold out"@ || n == "soldout"@ {
        AvailabilityStatus::OutOfStock
    } else if n == "backorder"@ || n == "back-order"@ || n == "back order"@ || n == "preorder"@
        || n == "pre-order"@ || n == "pre order"@ {
        AvailabilityStatus::BackOrder
    } else {
        AvailabilityStatus::Unknown
    }
}

/// The price text of product data: `price`, `currentPrice`, `salePrice`,
/// then `pricing.price`, the first that is a string or number.
pub open spec fn chemist_price_text(p: JsonValue) -> Option<Seq<char>> {
    if scalar_text(get_spec(p, "price"@)) is Some {
        scalar_text(get_spec(p, "price"@))
    } else if scalar_text(get_spec(p, "currentPrice"@)) is Some {
        scalar_text(get_spec(p, "currentPrice"@))
    } else if scalar_text(get_spec(p, "salePrice"@)) is Some {
        scalar_text(get_spec(p, "salePrice"@))
    } else {
        scalar_text(get_opt(get_spec(p, "pricing"@), "price"@))
    }
}

/// The price of product data: minor units at factor 100; the currency from
/// `currency`, else `priceCurrency`, else AUD when there is a price.
pub open spec fn chemist_price(p: JsonValue) -> (Option<i64>, Option<Seq<char>>, Option<Seq<char>>) {
    let raw = chemist_price_text(p);
    let minor = match raw {
        Some(t) => price_minor_spec(t, multiplier_for(None)),
        None => None,
    };
    let currency = if str_member(p, "currency"@) is Some {
        str_member(p, "currency"@)
    } else if str_member(p, "priceCurrency"@) is Some {
        str_member(p, "priceCurrency"@)
    } else if raw is Some {
        Some("AUD"@)
    } else {
        None
    };
    (minor, currency, raw)
}

/// What `parse_chemist_warehouse_data` gives for page props.
pub open spec fn chemist_spec(props: JsonValue) -> Result<
    (AvailabilityStatus, Option<Seq<char>>, (Option<i64>, Option<Seq<char>>, Option<Seq<char>>)),
    (int, Seq<char>),
> {
    match product_data(props) {
        None => Err((5int, "No product data found in Chemist Warehouse page props"@)),
        Some(p) => match availability_text(p) {
            None => Err((5int, "No availability found in Chemist Warehouse product data"@)),
            Some(a) => Ok((chemist_status(unicode_lower(a)), Some(a), chemist_price(p))),
        },
    }
}

/// Check if a value has typical product fields (see `product_fields`).
pub fn has_product_fields(value: &JsonValue) -> (r: bool)
    ensures
        r == product_fields(*value),
{
    let has_identifier = value.get("name").is_some() || value.get("sku").is_some()
        || value.get("productName").is_some();
    let has_stock_info = value.get("availability").is_some() || value.get("stock").is_some()
        || value.get("stockStatus").is_some() || value.get("inStock").is_some()
        || value.get("price").is_some();
    has_identifier && has_stock_info
}

/// The view of an optional reference.
pub open spec fn opt_ref(o: Option<&JsonValue>) -> Option<JsonValue> {
    match o {
        Some(x) => Some(*x),
        None => None,
    }
}

/// Find the product data object from the possible locations in page props.
pub fn find_product_data(page_props: &JsonValue) -> (r: Option<&JsonValue>)
    ensures
        opt_ref(r) == product_data(*page_props),
{
    match page_props.get("product") {
        Some(p) => {
            if has_product_fields(p) {
                return Some(p);
            }
        },
        None => {},
    }
    match page_props.get("productDetail") {
        Some(d) => {
            if has_product_fields(d) {
                return Some(d);
            }
        },
        None => {},
    }
    match page_props.get("data") {
        Some(data) => match data.get("product") {
            Some(p) => {
                if has_product_fields(p) {
                    return Some(p);
                }
            },
            None => {},
        },
        None => {},
    }
    if has_product_fields(page_props) {
        return Some(page_props);
    }
    None
}

fn string_member(v: &JsonValue, key: &str) -> (r: Option<String>)
    ensures
        opt_view(r) == str_member(*v, key@),
{
    match v.get(key) {
        Some(x) => match x.as_str() {
            Some(s) => Some(s.to_string()),
            None => None,
        },
        None => None,
    }
}

/// Extract the availability text from product data (see `availability_text`).
pub fn extract_availability(product: &JsonValue) -> (r: Option<String>)
    ensures
        opt_view(r) == availability_text(*product),
{
    let a = string_member(product, "availability");
    if a.is_some() {
        return a;
    }
    let a = string_member(product, "stockStatus");
    if a.is_some() {
        return a;
    }
    let a = string_member(product, "stock");
    if a.is_some() {
        return a;
    }
    match product.get("inStock") {
        Some(v) => match v.as_bool() {
            Some(true) => Some("in-stock".to_string()),
            Some(false) => Some("out-of-stock".to_string()),
            None => None,
        },
        None => None,
    }
}

/// Map Chemist Warehouse availability strings to `AvailabilityStatus`,
/// comparing the lowercased text with the known spellings exactly.
pub fn map_availability_status(availability: &str) -> (r: AvailabilityStatus)
    ensures
        r == chemist_status(unicode_lower(availability@)),
{
    let lowered = to_lower(availability);
    let n = chars_of(lowered.as_str());
    let n = n.as_slice();
    if chars_eq_str(n, "in-stock") || chars_eq_str(n, "instock") || chars_eq_str(n, "in stock")
        || chars_eq_str(n, "available") {
        AvailabilityStatus::InStock
    } else if chars_eq_str(n, "out-of-stock") || chars_eq_str(n, "outofstock")
        || chars_eq_str(n, "out of stock") || chars_eq_str(n, "unavailable") || chars_eq_str(n, "sold out")
        || chars_eq_str(n, "soldout") {
        AvailabilityStatus::OutOfStock
    } else if chars_eq_str(n, "backorder") || chars_eq_str(n, "back-order") || chars_eq_str(n, "back order")
        || chars_eq_str(n, "preorder") || chars_eq_str(n, "pre-order") || chars_eq_str(n, "pre order") {
        AvailabilityStatus::BackOrder
    } else {
        AvailabilityStatus::Unknown
    }
}

fn scalar_member(v: &JsonValue, key: &str) -> (r: Option<String>)
    ensures
        opt_view(r) == scalar_text(get_spec(*v, key@)),
{
    match v.get(key) {
        Some(x) => value_as_string(x),
        None => None,
    }
}

/// Extract the price text from the possible field names (see
/// `chemist_price_text`).
pub fn extract_price_string(product: &JsonValue) -> (r: Option<String>)
    ensures
        opt_view(r) == chemist_price_text(*product),
{
    let p = scalar_member(product, "price");
    if p.is_some() {
        return p;
    }
    let p = scalar_member(product, "currentPrice");
    if p.is_some() {
        return p;
    }
    let p = scalar_member(product, "salePrice");
    if p.is_some() {
        return p;
    }
    match product.get("pricing") {
        Some(pricing) => scalar_member(pricing, "price"),
        None => None,
    }
}

/// Extract price information from Chemist Warehouse product data (see
/// `chemist_price`).
pub fn extract_price_info(product: &JsonValue) -> (r: PriceInfo)
    ensures
        price_view(r) == chemist_price(*product),
{
    let raw_price = extract_price_string(product);
    let price_minor_units = match &raw_price {
        Some(p) => parse_price_to_minor_units(p.as_str(), None),
        None => None,
    };
    let c = string_member(product, "currency");
    let price_currency = if c.is_some() {
        c
    } else {
        let c = string_member(product, "priceCurrency");
        if c.is_some() {
            c
        } else if raw_price.is_some() {
            Some("AUD".to_string())
        } else {
            None
        }
    };
    PriceInfo { price_minor_units, price_currency, raw_price }
}

/// Parse product availability from Chemist Warehouse Next.js page props.
///
/// Errors (as scraping errors): no product data, or product data without
/// availability.
pub fn parse_chemist_warehouse_data(page_props: &JsonValue) -> (r: Result<ScrapingResult, AppError>)
    ensures
        outcome_view(r) == chemist_spec(*page_props),
{
    let product = match find_product_data(page_props) {
        Some(p) => p,
        None => {
            return Err(AppError::Scraping("No product data found in Chemist Warehouse page props".to_string()));
        },
    };
    let availability_str = match extract_availability(product) {
        Some(a) => a,
        None => {
            return Err(AppError::Scraping("No availability found in Chemist Warehouse product data".to_string()));
        },
    };
    let status = map_availability_status(availability_str.as_str());
    let price = extract_price_info(product);
    Ok(ScrapingResult { status, raw_availability: Some(availability_str), price })
}

// ---------------------------------------------------------------------------
// Decathlon
// ---------------------------------------------------------------------------

/// Check if the URL is for Decathlon Australia.
pub fn is_decathlon_url(url: &str) -> (r: bool)
    ensures
        r == has_sub(url@, "decathlon.com.au"@),
{
    let u = chars_of(url);
    contains_str(u.as_slice(), "decathlon.com.au")
}

/// Decathlon's price: `price.value` in `price.currency`, AUD when the
/// currency is absent and a value is present.
pub open spec fn decathlon_price(product: JsonValue) -> (Option<i64>, Option<Seq<char>>, Option<Seq<char>>) {
    let price_obj = get_spec(product, "price"@);
    let raw = scalar_text(get_opt(price_obj, "value"@));
    let c = as_str_spec(get_opt(price_obj, "currency"@));
    let currency = if c is Some {
        c
    } else if raw is Some {
        Some("AUD"@)
    } else {
        None
    };
    let minor = match raw {
        Some(t) => price_minor_spec(t, multiplier_for(currency)),
        None => None,
    };
    (minor, currency, raw)
}

/// Whether an item is active: its `desactivated` flag is `false`.
pub open spec fn item_active(item: JsonValue) -> bool {
    as_bool_spec(get_spec(item, "desactivated"@)) == Some(false)
}

/// Decathlon's availability: no or empty `items` gives out of stock
/// ("no-items"); any active item gives in stock, else out of stock.
pub open spec fn decathlon_availability(product: JsonValue) -> (AvailabilityStatus, Seq<char>) {
    match as_array_spec(get_spec(product, "items"@)) {
        None => (AvailabilityStatus::OutOfStock, "no-items"@),
        Some(items) => if items.len() == 0 {
            (AvailabilityStatus::OutOfStock, "no-items"@)
        } else if exists|i: int| 0 <= i < items.len() && item_active(#[trigger] items[i]) {
            (AvailabilityStatus::InStock, "in-stock"@)
        } else {
            (AvailabilityStatus::OutOfStock, "out-of-stock"@)
        },
    }
}

/// What `parse_decathlon_data` gives for page props.
pub open spec fn decathlon_spec(props: JsonValue) -> Result<
    (AvailabilityStatus, Option<Seq<char>>, (Option<i64>, Option<Seq<char>>, Option<Seq<char>>)),
    (int, Seq<char>),
> {
    match get_spec(props, "product"@) {
        None => Err((4int, "No product data found in Decathlon page props"@)),
        Some(p) => {
            let (status, raw) = decathlon_availability(p);
            Ok((status, Some(raw), decathlon_price(p)))
        },
    }
}

/// Decathlon's price from `product.price` (see `decathlon_price`).
pub fn decathlon_price_info(product: &JsonValue) -> (r: PriceInfo)
    ensures
        price_view(r) == decathlon_price(*product),
{
    let price_obj = product.get("price");
    let raw_price = match price_obj {
        Some(p) => scalar_member(p, "value"),
        None => None,
    };
    let c = match price_obj {
        Some(p) => string_member(p, "currency"),
        None => None,
    };
    let price_currency = if c.is_some() {
        c
    } else if raw_price.is_some() {
        Some("AUD".to_string())
    } else {
        None
    };
    let price_minor_units = match &raw_price {
        Some(p) => match &price_currency {
            Some(c) => parse_price_to_minor_units(p.as_str(), Some(c.as_str())),
            None => parse_price_to_minor_units(p.as_str(), None),
        },
        None => None,
    };
    PriceInfo { price_minor_units, price_currency, raw_price }
}

/// Decathlon's availability from `product.items` (see
/// `decathlon_availability`).
pub fn derive_availability(product: &JsonValue) -> (r: (AvailabilityStatus, String))
    ensures
        (r.0, r.1@) == decathlon_availability(*product),
{
    let items = match product.get("items") {
        Some(v) => match v.as_array() {
            Some(a) => a,
            None => {
                return (AvailabilityStatus::OutOfStock, "no-items".to_string());
            },
        },
        None => {
            return (AvailabilityStatus::OutOfStock, "no-items".to_string());
        },
    };
    if items.len() == 0 {
        return (AvailabilityStatus::OutOfStock, "no-items".to_string());
    }
    let mut i: usize = 0;
    while i < items.len()
        invariant
            i <= items@.len(),
            items@.len() > 0,
            as_array_spec(get_spec(*product, "items"@)) == Some(items@),
            forall|k: int| 0 <= k < i ==> !item_active(#[trigger] items@[k]),
        decreases items.len() - i,
    {
        let active = match items[i].get("desactivated") {
            Some(v) => v.as_bool() == Some(false),
            None => false,
        };
        if active {
            assert(item_active(items@[i as int]));
            return (AvailabilityStatus::InStock, "in-stock".to_string());
        }
        i = i + 1;
    }
    (AvailabilityStatus::OutOfStock, "out-of-stock".to_string())
}

/// Parse product availability and price from Decathlon's Next.js page props.
pub fn parse_decathlon_data(page_props: &JsonValue) -> (r: Result<ScrapingResult, AppError>)
    ensures
        outcome_view(r) == decathlon_spec(*page_props),
{
    let product = match page_props.get("product") {
        Some(p) => p,
        None => {
            return Err(AppError::External("No product data found in Decathlon page props".to_string()));
        },
    };
    let price = decathlon_price_info(product);
    let (status, raw_availability) = derive_availability(product);
    Ok(ScrapingResult { status, raw_availability: Some(raw_availability), price })
}

// ---------------------------------------------------------------------------
// Page props
// ---------------------------------------------------------------------------

/// The `props.pageProps` of the JSON in a Next.js page's first
/// `script#__NEXT_DATA__` element, when there is one and it parses.
pub open spec fn page_props_spec(html: Seq<char>) -> Option<JsonValue> {
    match select_inner_html(html, "script#__NEXT_DATA__"@) {
        Ok(texts) => if texts.len() > 0 {
            match json_parse(texts[0]) {
                Some(j) => get_opt(get_spec(j, "props"@), "pageProps"@),
                None => None,
            }
        } else {
            None
        },
        Err(_) => None,
    }
}

/// The page props a Next.js site (Chemist Warehouse, Decathlon) embeds in
/// its page: `props.pageProps` of the `__NEXT_DATA__` script's JSON.
pub fn next_page_props(html: &str) -> (r: Option<JsonValue>)
    ensures
        r == page_props_spec(html@),
{
    match inner_html_of_matches(html, "script#__NEXT_DATA__") {
        Ok(texts) => {
            if texts.len() == 0 {
                return None;
            }
            match parse_json(texts[0].as_str()) {
                Some(j) => match j.take("props") {
                    Some(props) => props.take("pageProps"),
                    None => None,
                },
                None => None,
            }
        },
        Err(_) => None,
    }
}

} // verus!
