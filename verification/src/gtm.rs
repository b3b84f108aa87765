//! GTM dataLayer extraction for product price and availability data.
//!
//! Parses `dataLayer.push({...})` calls commonly injected by Google Tag Manager,
//! supporting GA4 ecommerce events, Enhanced Ecommerce, and legacy fields.

use vstd::prelude::*;
use crate::error::{concat_str, err_view, AppError};
use crate::html::{inner_html_of_matches, select_inner_html};
use crate::jsscan::{balanced_braces_in, balanced_prefix, norm_out, normalize_js_to_json, opt_string_view};
use crate::json::{
    as_array_spec, as_str_spec, get_opt, get_spec, json_parse, parse_json, JsonValue,
};
use crate::price::{multiplier_for, parse_price_to_minor_units, price_minor_spec, price_view, PriceInfo};
use crate::scraping::{outcome_view, scraping_view, ScrapingResult};
use crate::status::{status_str, AvailabilityStatus};
use crate::text::{
    chars_of, contains_str, find_char_from, find_char_in, find_chars_from, find_from, has_sub,
    lemma_find_char_from_bounds, lemma_find_from_bounds, suffix_from, to_lower, unicode_lower,
};
use crate::url::strs_view;

verus! {

// ---------------------------------------------------------------------------
// Finding push calls in script text
// ---------------------------------------------------------------------------

/// A one-element sequence for a present value, empty otherwise.
pub open spec fn opt_seq(o: Option<Seq<char>>) -> Seq<Seq<char>> {
    match o {
        Some(x) => seq![x],
        None => Seq::empty(),
    }
}

/// The object texts of the push calls in `t` from index `from` on: for each
/// `dataLayer.push(`, the balanced `{...}` run starting at the next `{`.
/// Scanning resumes after that `{` (or after the marker when no `{` follows).
#[verifier::opaque]
pub open spec fn pushes_in(t: Seq<char>, from: int) -> Seq<Seq<char>>
    decreases t.len() + 1 - from,
{
    if from < 0 || from > t.len() {
        Seq::empty()
    } else {
        match find_from(t, "dataLayer.push("@, from) {
            None => Seq::empty(),
            Some(p) => {
                proof {
                    reveal_strlit("dataLayer.push(");
                    lemma_find_from_bounds(t, "dataLayer.push("@, from);
                }
                let after = p + "dataLayer.push("@.len();
                match find_char_from(t, '{', after) {
                    None => pushes_in(t, after),
                    Some(b) => {
                        proof {
                            lemma_find_char_from_bounds(t, '{', after);
                        }
                        opt_seq(balanced_prefix(t.skip(b))) + pushes_in(t, b + 1)
                    },
                }
            },
        }
    }
}

/// One step of `pushes_in`, unfolded.
pub proof fn lemma_pushes_step(t: Seq<char>, from: int)
    requires
        0 <= from <= t.len(),
    ensures
        find_from(t, "dataLayer.push("@, from) is None ==> pushes_in(t, from) == Seq::<Seq<char>>::empty(),
        find_from(t, "dataLayer.push("@, from) matches Some(p) ==> {
            &&& from <= p
            &&& p + 15 <= t.len()
            &&& find_char_from(t, '{', p + 15) is None ==> pushes_in(t, from) == pushes_in(t, p + 15)
            &&& find_char_from(t, '{', p + 15) matches Some(b) ==> {
                &&& p + 15 <= b < t.len()
                &&& pushes_in(t, from) == opt_seq(balanced_prefix(t.skip(b))) + pushes_in(t, b + 1)
            }
        },
{
    reveal(pushes_in);
    reveal_strlit("dataLayer.push(");
    lemma_find_from_bounds(t, "dataLayer.push("@, from);
    if let Some(p) = find_from(t, "dataLayer.push("@, from) {
        lemma_find_char_from_bounds(t, '{', p + 15);
    }
}

/// The push object texts of all scripts, in order.
pub open spec fn all_pushes(texts: Seq<Seq<char>>) -> Seq<Seq<char>>
    decreases texts.len(),
{
    if texts.len() == 0 {
        Seq::empty()
    } else {
        all_pushes(texts.drop_last()) + pushes_in(texts.last(), 0)
    }
}

/// One step of the push scan from `search_from`: `None` when no further
/// marker occurs; otherwise the object text found (if its braces balance)
/// and where scanning resumes.

fn next_push(cs: &[char], search_from: usize) -> (r: Option<(Option<String>, usize)>)
    requires
        search_from <= cs@.len(),
    ensures
        match r {
            None => pushes_in(cs@, search_from as int) == Seq::<Seq<char>>::empty(),
            Some((o, next)) => {
                &&& search_from < next <= cs@.len()
                &&& pushes_in(cs@, search_from as int) == opt_seq(opt_string_view(o)) + pushes_in(cs@, next as int)
            },
        },
{
    let marker = chars_of("dataLayer.push(");
    proof {
        reveal_strlit("dataLayer.push(");
        lemma_pushes_step(cs@, search_from as int);
    }
    match find_chars_from(cs, marker.as_slice(), search_from) {
        None => None,
        Some(p) => {
            assert(p + 15 <= cs.len());
            let after = p + 15;
            match find_char_in(cs, '{', after) {
                None => {
                    assert(opt_seq(opt_string_view(None)) + pushes_in(cs@, after as int) =~= pushes_in(cs@, after as int));
                    Some((None, after))
                },
                Some(b) => {
                    let suffix = suffix_from(cs, b);
                    let obj = balanced_braces_in(suffix.as_slice());
                    Some((obj, b + 1))
                },
            }
        },
    }
}

/// The object texts of the `dataLayer.push({...})` calls in one script.
pub fn push_strings_in_script(text: &str) -> (r: Vec<String>)
    ensures
        strs_view(r@) == pushes_in(text@, 0),
{
    let cs = chars_of(text);
    let mut results: Vec<String> = Vec::new();
    let mut search_from: usize = 0;
    loop
        invariant
            cs@ == text@,
            search_from <= cs@.len(),
            strs_view(results@) + pushes_in(cs@, search_from as int) == pushes_in(cs@, 0),
        decreases cs@.len() + 1 - search_from,
    {
        let ghost before = results@;
        match next_push(cs.as_slice(), search_from) {
            None => {
                assert(strs_view(results@) + pushes_in(cs@, search_from as int) =~= strs_view(results@));
                return results;
            },
            Some((found, next)) => {
                match found {
                    Some(obj) => {
                        results.push(obj);
                        assert(strs_view(results@) =~= strs_view(before).push(obj@));
                        assert(strs_view(results@) =~= strs_view(before) + opt_seq(Some(obj@)));
                    },
                    None => {
                        assert(strs_view(results@) =~= strs_view(before) + opt_seq(None));
                    },
                }
                assert(strs_view(results@) + pushes_in(cs@, next as int) =~= strs_view(before) + pushes_in(cs@, search_from as int));
                search_from = next;
            },
        }
    }
}

/// The push object texts of all the given scripts, in order.
pub fn push_strings_from_scripts(texts: &[String]) -> (r: Vec<String>)
    ensures
        strs_view(r@) == all_pushes(strs_view(texts@)),
{
    let mut out: Vec<String> = Vec::new();
    let mut i: usize = 0;
    while i < texts.len()
        invariant
            i <= texts@.len(),
            strs_view(out@) == all_pushes(strs_view(texts@.take(i as int))),
        decreases texts.len() - i,
    {
        let found = push_strings_in_script(texts[i].as_str());
        let ghost before = out@;
        let mut j: usize = 0;
        while j < found.len()
            invariant
                j <= found@.len(),
                strs_view(out@) == strs_view(before) + strs_view(found@.take(j as int)),
            decreases found.len() - j,
        {
            let ghost prev = out@;
            out.push(found[j].clone());
            proof {
                assert(strs_view(out@) =~= strs_view(prev).push(found@[j as int]@));
                assert(found@.take(j + 1) =~= found@.take(j as int).push(found@[j as int]));
                assert(strs_view(found@.take(j + 1)) =~= strs_view(found@.take(j as int)).push(found@[j as int]@));
                assert(strs_view(out@) =~= strs_view(before) + strs_view(found@.take(j + 1)));
            }
            j = j + 1;
        }
        proof {
            assert(found@.take(found@.len() as int) =~= found@);
            let t = strs_view(texts@.take(i + 1));
            assert(texts@.take(i + 1).drop_last() =~= texts@.take(i as int));
            assert(t.drop_last() =~= strs_view(texts@.take(i as int)));
            assert(t.last() == texts@[i as int]@);
        }
        i = i + 1;
    }
    assert(texts@.take(texts@.len() as int) =~= texts@);
    out
}

/// The selector for scripts with inline content.
pub open spec fn inline_script_selector() -> Seq<char> {
    "script:not([src])"@
}

/// Extract raw JS object strings from `dataLayer.push({...})` calls in
/// inline `<script>` tags (those without a `src` attribute).
pub fn extract_datalayer_push_strings(html: &str) -> (r: Result<Vec<String>, AppError>)
    ensures
        match select_inner_html(html@, inline_script_selector()) {
            Ok(texts) => r matches Ok(v) && strs_view(v@) == all_pushes(texts),
            Err(e) => r matches Err(err) && err_view(err) == (4int, "Invalid selector: "@ + e),
        },
{
    match inner_html_of_matches(html, "script:not([src])") {
        Ok(texts) => {
            proof {
                assert(strs_view(texts@) == texts@.map_values(|t: String| t@));
            }
            Ok(push_strings_from_scripts(texts.as_slice()))
        },
        Err(e) => Err(AppError::External(concat_str("Invalid selector: ", e.as_str()))),
    }
}

// ---------------------------------------------------------------------------
// Push objects
// ---------------------------------------------------------------------------

/// A member that is `null` counts as absent.
pub open spec fn non_null(v: Option<JsonValue>) -> Option<JsonValue> {
    match v {
        Some(JsonValue::Null) => None,
        _ => v,
    }
}

/// A string member's text.
pub open spec fn str_member(v: JsonValue, key: Seq<char>) -> Option<Seq<char>> {
    as_str_spec(get_spec(v, key))
}

/// A member that may be absent, `null` or a string.
pub open spec fn optional_string_ok(f: Option<JsonValue>) -> bool {
    match f {
        None => true,
        Some(JsonValue::Null) => true,
        Some(JsonValue::String(_)) => true,
        _ => false,
    }
}

/// The shapes an ecommerce item takes: an object, or a one-element array
/// holding the price.
pub open spec fn item_ok(v: JsonValue) -> bool {
    match v {
        JsonValue::Object(_) => true,
        JsonValue::Array(a) => a@.len() == 1,
        _ => false,
    }
}

/// An `items` member that may be absent, `null`, or an array of items.
pub open spec fn items_ok(f: Option<JsonValue>) -> bool {
    match f {
        None => true,
        Some(JsonValue::Null) => true,
        Some(JsonValue::Array(a)) => forall|i: int| 0 <= i < a@.len() ==> item_ok(#[trigger] a@[i]),
        _ => false,
    }
}

/// Whether a JSON value has the shape of a push: an object whose `event`
/// and `currency` are strings (or absent) and whose `items` are items.
pub open spec fn push_ok(v: JsonValue) -> bool {
    &&& v is Object
    &&& optional_string_ok(get_spec(v, "event"@))
    &&& optional_string_ok(get_spec(v, "currency"@))
    &&& items_ok(get_spec(v, "items"@))
}

/// The price of an item.
pub open spec fn item_price(v: JsonValue) -> Option<JsonValue> {
    match v {
        JsonValue::Object(_) => non_null(get_spec(v, "price"@)),
        JsonValue::Array(a) => if a@.len() > 0 {
            non_null(Some(a@[0]))
        } else {
            None
        },
        _ => None,
    }
}

/// The price of a push's first item.
pub open spec fn first_item_price(v: JsonValue) -> Option<JsonValue> {
    match get_spec(v, "items"@) {
        Some(JsonValue::Array(a)) => if a@.len() > 0 {
            item_price(a@[0])
        } else {
            None
        },
        _ => None,
    }
}

/// One `dataLayer.push({...})` object: GA4 ecommerce (`event`, `currency`,
/// `value`, `items`), Enhanced Ecommerce (`ecommerce.detail.products`) and
/// legacy (`ecomm_totalvalue`) fields are read from it.
#[derive(Debug)]
pub struct DataLayerPush {
    pub json: JsonValue,
}

/// The JSON objects of a list of pushes.
pub open spec fn push_jsons(ps: Seq<DataLayerPush>) -> Seq<JsonValue> {
    ps.map_values(|p: DataLayerPush| p.json)
}

impl DataLayerPush {
    /// A push from a parsed JSON value, when it has the shape of one.
    pub fn from_json(v: JsonValue) -> (r: Option<DataLayerPush>)
        ensures
            push_ok(v) ==> (r matches Some(p) && p.json == v),
            !push_ok(v) ==> r is None,
    {
        match &v {
            JsonValue::Object(_) => {},
            _ => {
                return None;
            },
        }
        if !optional_string(v.get("event")) || !optional_string(v.get("currency")) {
            return None;
        }
        let ok = match v.get("items") {
            None => true,
            Some(JsonValue::Null) => true,
            Some(JsonValue::Array(a)) => all_items_ok(a.as_slice()),
            Some(_) => false,
        };
        if ok {
            Some(DataLayerPush { json: v })
        } else {
            None
        }
    }

    /// The event name.
    pub fn event(&self) -> (r: Option<&str>)
        ensures
            match r {
                Some(s) => str_member(self.json, "event"@) == Some(s@),
                None => str_member(self.json, "event"@) is None,
            },
    {
        match self.json.get("event") {
            Some(e) => e.as_str(),
            None => None,
        }
    }

    /// The currency code.
    pub fn currency(&self) -> (r: Option<&str>)
        ensures
            match r {
                Some(s) => str_member(self.json, "currency"@) == Some(s@),
                None => str_member(self.json, "currency"@) is None,
            },
    {
        match self.json.get("currency") {
            Some(e) => e.as_str(),
            None => None,
        }
    }

    /// A member that is neither absent nor `null`.
    pub fn member(&self, key: &str) -> (r: Option<&JsonValue>)
        ensures
            match r {
                Some(x) => non_null(get_spec(self.json, key@)) == Some(*x),
                None => non_null(get_spec(self.json, key@)) is None,
            },
    {
        match self.json.get(key) {
            Some(JsonValue::Null) => None,
            other => other,
        }
    }

    /// The price of the first item.
    pub fn first_item_price(&self) -> (r: Option<&JsonValue>)
        ensures
            match r {
                Some(x) => first_item_price(self.json) == Some(*x),
                None => first_item_price(self.json) is None,
            },
    {
        match self.json.get("items") {
            Some(JsonValue::Array(a)) => {
                if a.len() == 0 {
                    return None;
                }
                match &a[0] {
                    JsonValue::Object(_) => match a[0].get("price") {
                        Some(JsonValue::Null) => None,
                        other => other,
                    },
                    JsonValue::Array(b) => {
                        if b.len() == 0 {
                            None
                        } else {
                            match &b[0] {
                                JsonValue::Null => None,
                                x => Some(x),
                            }
                        }
                    },
                    _ => None,
                }
            },
            _ => None,
        }
    }
}

/// Whether a member is absent, `null` or a string.
pub fn optional_string(f: Option<&JsonValue>) -> (r: bool)
    ensures
        r == optional_string_ok(match f {
            Some(x) => Some(*x),
            None => None,
        }),
{
    match f {
        None => true,
        Some(JsonValue::Null) => true,
        Some(JsonValue::String(_)) => true,
        Some(_) => false,
    }
}

fn all_items_ok(a: &[JsonValue]) -> (r: bool)
    ensures
        r == forall|i: int| 0 <= i < a@.len() ==> item_ok(#[trigger] a@[i]),
{
    let mut i: usize = 0;
    while i < a.len()
        invariant
            i <= a@.len(),
            forall|k: int| 0 <= k < i ==> item_ok(#[trigger] a@[k]),
        decreases a.len() - i,
    {
        let ok = match &a[i] {
            JsonValue::Object(_) => true,
            JsonValue::Array(b) => b.len() == 1,
            _ => false,
        };
        if !ok {
            assert(!item_ok(a@[i as int]));
            return false;
        }
        i = i + 1;
    }
    true
}


// ---------------------------------------------------------------------------
// Prices
// ---------------------------------------------------------------------------

/// The text of a price value: a non-empty string as is, a number as its text.
pub open spec fn raw_price_text(v: Option<JsonValue>) -> Option<Seq<char>> {
    match v {
        Some(JsonValue::String(t)) => if t@.len() > 0 {
            Some(t@)
        } else {
            None
        },
        Some(JsonValue::Number(n)) => Some(n@),
        _ => None,
    }
}

/// The price read from a value with a currency, when it parses to minor
/// units: (minor units, currency, raw text).
pub open spec fn price_from_value_spec(v: Option<JsonValue>, currency: Option<Seq<char>>) -> Option<(Option<i64>, Option<Seq<char>>, Option<Seq<char>>)> {
    match raw_price_text(v) {
        None => None,
        Some(raw) => {
            let minor = price_minor_spec(raw, multiplier_for(currency));
            if minor is Some {
                Some((minor, currency, Some(raw)))
            } else {
                None
            }
        },
    }
}

/// The view of an optional price.
pub open spec fn opt_price_view(r: Option<PriceInfo>) -> Option<(Option<i64>, Option<Seq<char>>, Option<Seq<char>>)> {
    match r {
        Some(p) => Some(price_view(p)),
        None => None,
    }
}

/// The view of an optional string slice.
pub open spec fn opt_str_view(o: Option<&str>) -> Option<Seq<char>> {
    match o {
        Some(s) => Some(s@),
        None => None,
    }
}

/// The view of an optional reference to a JSON value.
pub open spec fn opt_json(o: Option<&JsonValue>) -> Option<JsonValue> {
    match o {
        Some(x) => Some(*x),
        None => None,
    }
}

/// Convert a JSON string or number into a `PriceInfo`; `None` unless the
/// price parses to minor units.
pub fn extract_price_from_value(value: Option<&JsonValue>, currency: Option<&str>) -> (r: Option<PriceInfo>)
    ensures
        opt_price_view(r) == price_from_value_spec(opt_json(value), opt_str_view(currency)),
{
    let raw_price: String = match value {
        Some(JsonValue::String(t)) => {
            if t.as_str().is_empty() {
                return None;
            }
            t.clone()
        },
        Some(JsonValue::Number(n)) => n.clone(),
        _ => {
            return None;
        },
    };
    let minor_units = parse_price_to_minor_units(raw_price.as_str(), currency);
    if minor_units.is_none() {
        return None;
    }
    let price_currency = match currency {
        Some(c) => Some(c.to_string()),
        None => None,
    };
    Some(PriceInfo { price_minor_units: minor_units, price_currency, raw_price: Some(raw_price) })
}

// ---------------------------------------------------------------------------
// GA4, Enhanced Ecommerce and legacy formats
// ---------------------------------------------------------------------------

/// The first of two optional prices that is present.
pub open spec fn or_price(
    a: Option<(Option<i64>, Option<Seq<char>>, Option<Seq<char>>)>,
    b: Option<(Option<i64>, Option<Seq<char>>, Option<Seq<char>>)>,
) -> Option<(Option<i64>, Option<Seq<char>>, Option<Seq<char>>)> {
    if a is Some {
        a
    } else {
        b
    }
}

/// A GA4 push's price: its first item's price, else its `value`.
pub open spec fn ga4_push_price(p: JsonValue) -> Option<(Option<i64>, Option<Seq<char>>, Option<Seq<char>>)> {
    let currency = str_member(p, "currency"@);
    or_price(
        price_from_value_spec(first_item_price(p), currency),
        price_from_value_spec(non_null(get_spec(p, "value"@)), currency),
    )
}

/// The first push from index `i` on with event `name` that yields a price.
pub open spec fn ga4_event_from(ps: Seq<JsonValue>, name: Seq<char>, i: int) -> Option<(Option<i64>, Option<Seq<char>>, Option<Seq<char>>)>
    decreases ps.len() - i,
{
    if i < 0 || i >= ps.len() {
        None
    } else if str_member(ps[i], "event"@) == Some(name) && ga4_push_price(ps[i]) is Some {
        ga4_push_price(ps[i])
    } else {
        ga4_event_from(ps, name, i + 1)
    }
}

/// The first push from index `i` on without an event whose first item
/// yields a price.
pub open spec fn untyped_items_from(ps: Seq<JsonValue>, i: int) -> Option<(Option<i64>, Option<Seq<char>>, Option<Seq<char>>)>
    decreases ps.len() - i,
{
    if i < 0 || i >= ps.len() {
        None
    } else {
        let r = price_from_value_spec(first_item_price(ps[i]), str_member(ps[i], "currency"@));
        if str_member(ps[i], "event"@) is None && r is Some {
            r
        } else {
            untyped_items_from(ps, i + 1)
        }
    }
}

/// GA4 extraction: events view_item, add_to_cart, purchase, begin_checkout
/// in that priority, then pushes without an event.
pub open spec fn ga4_spec(ps: Seq<JsonValue>) -> Option<(Option<i64>, Option<Seq<char>>, Option<Seq<char>>)> {
    or_price(
        ga4_event_from(ps, "view_item"@, 0),
        or_price(
            ga4_event_from(ps, "add_to_cart"@, 0),
            or_price(
                ga4_event_from(ps, "purchase"@, 0),
                or_price(ga4_event_from(ps, "begin_checkout"@, 0), untyped_items_from(ps, 0)),
            ),
        ),
    )
}

/// The Enhanced Ecommerce price of one push with ecommerce data `e`:
/// `e.detail.products[0].price`, in `e.currencyCode` or else the push's
/// currency.
pub open spec fn enhanced_push_price(p: JsonValue, e: JsonValue) -> Option<(Option<i64>, Option<Seq<char>>, Option<Seq<char>>)> {
    match as_array_spec(get_opt(get_spec(e, "detail"@), "products"@)) {
        Some(a) => if a.len() > 0 {
            let code = as_str_spec(get_spec(e, "currencyCode"@));
            let currency = if code is Some {
                code
            } else {
                str_member(p, "currency"@)
            };
            price_from_value_spec(get_spec(a[0], "price"@), currency)
        } else {
            None
        },
        None => None,
    }
}

/// Enhanced Ecommerce extraction from index `i` on. The scan stops with
/// nothing at the first push that has no `ecommerce` data.
pub open spec fn enhanced_from(ps: Seq<JsonValue>, i: int) -> Option<(Option<i64>, Option<Seq<char>>, Option<Seq<char>>)>
    decreases ps.len() - i,
{
    if i < 0 || i >= ps.len() {
        None
    } else {
        match non_null(get_spec(ps[i], "ecommerce"@)) {
            None => None,
            Some(e) => if enhanced_push_price(ps[i], e) is Some {
                enhanced_push_price(ps[i], e)
            } else {
                enhanced_from(ps, i + 1)
            },
        }
    }
}

/// Legacy extraction: the first push from index `i` on whose
/// `ecomm_totalvalue` yields a price.
pub open spec fn legacy_from(ps: Seq<JsonValue>, i: int) -> Option<(Option<i64>, Option<Seq<char>>, Option<Seq<char>>)>
    decreases ps.len() - i,
{
    if i < 0 || i >= ps.len() {
        None
    } else {
        let r = price_from_value_spec(non_null(get_spec(ps[i], "ecomm_totalvalue"@)), str_member(ps[i], "currency"@));
        if r is Some {
            r
        } else {
            legacy_from(ps, i + 1)
        }
    }
}

/// The GA4 price of one push.
fn ga4_price_of(push: &DataLayerPush) -> (r: Option<PriceInfo>)
    ensures
        opt_price_view(r) == ga4_push_price(push.json),
{
    let currency = push.currency();
    let from_item = extract_price_from_value(push.first_item_price(), currency);
    if from_item.is_some() {
        return from_item;
    }
    extract_price_from_value(push.member("value"), currency)
}

/// The first push with the given event name that yields a GA4 price.
fn ga4_for_event(pushes: &[DataLayerPush], name: &str) -> (r: Option<PriceInfo>)
    ensures
        opt_price_view(r) == ga4_event_from(push_jsons(pushes@), name@, 0),
{
    let ghost ps = push_jsons(pushes@);
    let mut i: usize = 0;
    while i < pushes.len()
        invariant
            ps == push_jsons(pushes@),
            i <= pushes@.len(),
            ga4_event_from(ps, name@, 0) == ga4_event_from(ps, name@, i as int),
        decreases pushes.len() - i,
    {
        let push = &pushes[i];
        let matches = match push.event() {
            Some(e) => crate::text::str_eq(e, name),
            None => false,
        };
        if matches {
            let price = ga4_price_of(push);
            if price.is_some() {
                return price;
            }
        }
        i = i + 1;
    }
    None
}

/// Try to extract price from GA4 ecommerce events, prioritizing by event
/// type (view_item, add_to_cart, purchase, begin_checkout), then from the
/// first item of pushes that carry no event name.
pub fn try_ga4_extraction(pushes: &[DataLayerPush]) -> (r: Option<PriceInfo>)
    ensures
        opt_price_view(r) == ga4_spec(push_jsons(pushes@)),
{
    let r = ga4_for_event(pushes, "view_item");
    if r.is_some() {
        return r;
    }
    let r = ga4_for_event(pushes, "add_to_cart");
    if r.is_some() {
        return r;
    }
    let r = ga4_for_event(pushes, "purchase");
    if r.is_some() {
        return r;
    }
    let r = ga4_for_event(pushes, "begin_checkout");
    if r.is_some() {
        return r;
    }
    let ghost ps = push_jsons(pushes@);
    let mut i: usize = 0;
    while i < pushes.len()
        invariant
            ps == push_jsons(pushes@),
            i <= pushes@.len(),
            untyped_items_from(ps, 0) == untyped_items_from(ps, i as int),
            ga4_event_from(ps, "view_item"@, 0) is None,
            ga4_event_from(ps, "add_to_cart"@, 0) is None,
            ga4_event_from(ps, "purchase"@, 0) is None,
            ga4_event_from(ps, "begin_checkout"@, 0) is None,
        decreases pushes.len() - i,
    {
        let push = &pushes[i];
        if push.event().is_none() {
            let price = extract_price_from_value(push.first_item_price(), push.currency());
            if price.is_some() {
                return price;
            }
        }
        i = i + 1;
    }
    None
}

/// The Enhanced Ecommerce price of one push with ecommerce data.
fn enhanced_price_of(push: &DataLayerPush, ecommerce: &JsonValue) -> (r: Option<PriceInfo>)
    ensures
        opt_price_view(r) == enhanced_push_price(push.json, *ecommerce),
{
    let products = match ecommerce.get("detail") {
        Some(d) => match d.get("products") {
            Some(p) => p.as_array(),
            None => None,
        },
        None => None,
    };
    match products {
        Some(products) => {
            if products.len() == 0 {
                return None;
            }
            let code = match ecommerce.get("currencyCode") {
                Some(c) => c.as_str(),
                None => None,
            };
            let currency = if code.is_some() {
                code
            } else {
                push.currency()
            };
            extract_price_from_value(products[0].get("price"), currency)
        },
        None => None,
    }
}

/// Try to extract price from Enhanced Ecommerce
/// `ecommerce.detail.products[0]`. Stops at the first push that carries no
/// ecommerce data.
pub fn try_enhanced_ecommerce_extraction(pushes: &[DataLayerPush]) -> (r: Option<PriceInfo>)
    ensures
        opt_price_view(r) == enhanced_from(push_jsons(pushes@), 0),
{
    let ghost ps = push_jsons(pushes@);
    let mut i: usize = 0;
    while i < pushes.len()
        invariant
            ps == push_jsons(pushes@),
            i <= pushes@.len(),
            enhanced_from(ps, 0) == enhanced_from(ps, i as int),
        decreases pushes.len() - i,
    {
        let push = &pushes[i];
        let ecommerce = match push.member("ecommerce") {
            Some(e) => e,
            None => {
                return None;
            },
        };
        let price = enhanced_price_of(push, ecommerce);
        if price.is_some() {
            return price;
        }
        i = i + 1;
    }
    None
}

/// Try to extract price from the legacy `ecomm_totalvalue` field.
pub fn try_legacy_extraction(pushes: &[DataLayerPush]) -> (r: Option<PriceInfo>)
    ensures
        opt_price_view(r) == legacy_from(push_jsons(pushes@), 0),
{
    let ghost ps = push_jsons(pushes@);
    let mut i: usize = 0;
    while i < pushes.len()
        invariant
            ps == push_jsons(pushes@),
            i <= pushes@.len(),
            legacy_from(ps, 0) == legacy_from(ps, i as int),
        decreases pushes.len() - i,
    {
        let push = &pushes[i];
        let price = extract_price_from_value(push.member("ecomm_totalvalue"), push.currency());
        if price.is_some() {
            return price;
        }
        i = i + 1;
    }
    None
}


// ---------------------------------------------------------------------------
// Availability and the overall result
// ---------------------------------------------------------------------------

/// Whether lowercased page text holds an add-to-cart style button text.
pub open spec fn cart_indicator(lower: Seq<char>) -> bool {
    ||| has_sub(lower, "add to cart"@)
    ||| has_sub(lower, "add to bag"@)
    ||| has_sub(lower, "add to basket"@)
    ||| has_sub(lower, "buy now"@)
    ||| has_sub(lower, "purchase"@)
    ||| has_sub(lower, "in den warenkorb"@)
    ||| has_sub(lower, "au panier"@)
    ||| has_sub(lower, "カートに入れる"@)
    ||| has_sub(lower, "カートに追加"@)
}

/// The availability a page's text suggests.
pub open spec fn inferred_status(html: Seq<char>) -> AvailabilityStatus {
    if cart_indicator(unicode_lower(html)) {
        AvailabilityStatus::InStock
    } else {
        AvailabilityStatus::Unknown
    }
}

/// Infer product availability from HTML by searching the lowercased page
/// for add-to-cart button texts (English, German, French, Japanese): in
/// stock when one occurs, unknown otherwise.
pub fn infer_availability(html: &str) -> (r: AvailabilityStatus)
    ensures
        r == inferred_status(html@),
{
    let lower = to_lower(html);
    let l = chars_of(lower.as_str());
    let l = l.as_slice();
    if contains_str(l, "add to cart") || contains_str(l, "add to bag") || contains_str(l, "add to basket")
        || contains_str(l, "buy now") || contains_str(l, "purchase") || contains_str(l, "in den warenkorb")
        || contains_str(l, "au panier") || contains_str(l, "カートに入れる") || contains_str(l, "カートに追加") {
        AvailabilityStatus::InStock
    } else {
        AvailabilityStatus::Unknown
    }
}

/// What `build_result` gives for a page and a price.
pub open spec fn built_result(html: Seq<char>, price: (Option<i64>, Option<Seq<char>>, Option<Seq<char>>)) -> (
    AvailabilityStatus,
    Option<Seq<char>>,
    (Option<i64>, Option<Seq<char>>, Option<Seq<char>>),
) {
    let status = inferred_status(html);
    (status, Some("gtm_datalayer:"@ + status_str(status)), price)
}

/// Build a ScrapingResult from inferred availability and extracted price;
/// the raw availability is `gtm_datalayer:` and the status's string.
pub fn build_result(html: &str, price: PriceInfo) -> (r: ScrapingResult)
    ensures
        scraping_view(r) == built_result(html@, price_view(price)),
{
    let status = infer_availability(html);
    let raw_availability = Some(concat_str("gtm_datalayer:", status.as_str()));
    ScrapingResult { status, raw_availability, price }
}

/// The outcome for a page from its parsed pushes.
pub open spec fn pushes_outcome(html: Seq<char>, ps: Seq<JsonValue>) -> Result<
    (AvailabilityStatus, Option<Seq<char>>, (Option<i64>, Option<Seq<char>>, Option<Seq<char>>)),
    (int, Seq<char>),
> {
    if ps.len() == 0 {
        Err((4int, "No parseable dataLayer.push() objects found"@))
    } else {
        match ga4_spec(ps) {
            Some(p) => Ok(built_result(html, p)),
            None => match enhanced_from(ps, 0) {
                Some(p) => Ok(built_result(html, p)),
                None => match legacy_from(ps, 0) {
                    Some(p) => Ok(built_result(html, p)),
                    None => Err((4int, "No ecommerce data found in dataLayer pushes"@)),
                },
            },
        }
    }
}

/// The result for a page from its parsed pushes: GA4 first, then Enhanced
/// Ecommerce, then legacy `ecomm_totalvalue`; an error when no push parsed
/// or none holds ecommerce data.
pub fn extract_from_pushes(html: &str, pushes: &[DataLayerPush]) -> (r: Result<ScrapingResult, AppError>)
    ensures
        outcome_view(r) == pushes_outcome(html@, push_jsons(pushes@)),
{
    if pushes.len() == 0 {
        return Err(AppError::External("No parseable dataLayer.push() objects found".to_string()));
    }
    let price = try_ga4_extraction(pushes);
    match price {
        Some(p) => {
            return Ok(build_result(html, p));
        },
        None => {},
    }
    let price = try_enhanced_ecommerce_extraction(pushes);
    match price {
        Some(p) => {
            return Ok(build_result(html, p));
        },
        None => {},
    }
    let price = try_legacy_extraction(pushes);
    match price {
        Some(p) => Ok(build_result(html, p)),
        None => Err(AppError::External("No ecommerce data found in dataLayer pushes".to_string())),
    }
}

/// The pushes that parse, after normalisation, to JSON of a push's shape.
pub open spec fn parsed_pushes(strs: Seq<Seq<char>>) -> Seq<JsonValue>
    decreases strs.len(),
{
    if strs.len() == 0 {
        Seq::empty()
    } else {
        let prev = parsed_pushes(strs.drop_last());
        let t = strs.last();
        match json_parse(norm_out(t, t.len() as int)) {
            Some(v) => if push_ok(v) {
                prev.push(v)
            } else {
                prev
            },
            None => prev,
        }
    }
}

/// Normalise each push text to JSON and keep those that parse to a push.
pub fn parse_pushes(push_objects: &[String]) -> (r: Vec<DataLayerPush>)
    ensures
        push_jsons(r@) == parsed_pushes(strs_view(push_objects@)),
{
    let mut out: Vec<DataLayerPush> = Vec::new();
    let mut i: usize = 0;
    while i < push_objects.len()
        invariant
            i <= push_objects@.len(),
            push_jsons(out@) == parsed_pushes(strs_view(push_objects@.take(i as int))),
        decreases push_objects.len() - i,
    {
        let json_str = normalize_js_to_json(push_objects[i].as_str());
        let ghost prev = out@;
        match parse_json(json_str.as_str()) {
            Some(v) => match DataLayerPush::from_json(v) {
                Some(p) => {
                    out.push(p);
                    assert(push_jsons(out@) =~= push_jsons(prev).push(out@.last().json));
                },
                None => {},
            },
            None => {},
        }
        proof {
            let t = strs_view(push_objects@.take(i + 1));
            assert(push_objects@.take(i + 1).drop_last() =~= push_objects@.take(i as int));
            assert(t.drop_last() =~= strs_view(push_objects@.take(i as int)));
            assert(t.last() == push_objects@[i as int]@);
        }
        i = i + 1;
    }
    assert(push_objects@.take(push_objects@.len() as int) =~= push_objects@);
    out
}

/// What `extract_from_datalayer` gives for a page.
pub open spec fn datalayer_spec(html: Seq<char>) -> Result<
    (AvailabilityStatus, Option<Seq<char>>, (Option<i64>, Option<Seq<char>>, Option<Seq<char>>)),
    (int, Seq<char>),
> {
    match select_inner_html(html, inline_script_selector()) {
        Err(e) => Err((4int, "Invalid selector: "@ + e)),
        Ok(texts) => {
            let strs = all_pushes(texts);
            if strs.len() == 0 {
                Err((4int, "No dataLayer.push() calls found"@))
            } else {
                pushes_outcome(html, parsed_pushes(strs))
            }
        },
    }
}

/// Extract product data from GTM dataLayer pushes in the HTML.
///
/// The push objects of inline scripts are normalised to JSON and parsed;
/// GA4 events are tried first, then Enhanced Ecommerce, then the legacy
/// total. Errors: no push call found, no push parsed, no ecommerce data.
pub fn extract_from_datalayer(html: &str) -> (r: Result<ScrapingResult, AppError>)
    ensures
        outcome_view(r) == datalayer_spec(html@),
{
    let push_objects = match extract_datalayer_push_strings(html) {
        Ok(v) => v,
        Err(e) => {
            return Err(e);
        },
    };
    if push_objects.len() == 0 {
        return Err(AppError::External("No dataLayer.push() calls found".to_string()));
    }
    let parsed = parse_pushes(push_objects.as_slice());
    extract_from_pushes(html, parsed.as_slice())
}

} // verus!
