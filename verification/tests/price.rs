use product_stalker::json::JsonValue;
use product_stalker::price::{
    clean_price_text, get_price_from_offer, has_path_locale, infer_currency_from_domain,
    infer_currency_from_path, minor_units_from_decimal, minor_units_from_product,
    parse_price_to_minor_units, PriceInfo,
};

fn conv(v: &serde_json::Value) -> JsonValue {
    match v {
        serde_json::Value::Null => JsonValue::Null,
        serde_json::Value::Bool(b) => JsonValue::Bool(*b),
        serde_json::Value::Number(n) => JsonValue::Number(n.to_string()),
        serde_json::Value::String(s) => JsonValue::String(s.clone()),
        serde_json::Value::Array(a) => JsonValue::Array(a.iter().map(conv).collect()),
        serde_json::Value::Object(m) => JsonValue::Object(m.iter().map(|(k, x)| (k.clone(), conv(x))).collect()),
    }
}

fn jv(text: &str) -> JsonValue {
    conv(&serde_json::from_str::<serde_json::Value>(text).unwrap())
}

#[test]
fn test_parse_price_simple() {
    assert_eq!(parse_price_to_minor_units("789.00", Some("USD")), Some(78900));
    assert_eq!(parse_price_to_minor_units("99.99", Some("USD")), Some(9999));
    assert_eq!(parse_price_to_minor_units("49.99", Some("AUD")), Some(4999));
}

#[test]
fn test_parse_price_with_thousands() {
    assert_eq!(parse_price_to_minor_units("1,234.56", Some("USD")), Some(123456));
    assert_eq!(parse_price_to_minor_units("10,000.00", Some("USD")), Some(1000000));
}

#[test]
fn test_parse_price_no_decimals() {
    assert_eq!(parse_price_to_minor_units("789", Some("USD")), Some(78900));
    assert_eq!(parse_price_to_minor_units("100", Some("USD")), Some(10000));
}

#[test]
fn test_parse_price_single_decimal() {
    assert_eq!(parse_price_to_minor_units("789.9", Some("USD")), Some(78990));
    assert_eq!(parse_price_to_minor_units("99.5", Some("USD")), Some(9950));
}

#[test]
fn test_parse_price_with_currency_symbol() {
    assert_eq!(parse_price_to_minor_units("$789.00", Some("USD")), Some(78900));
    assert_eq!(parse_price_to_minor_units("€99.99", Some("EUR")), Some(9999));
}

#[test]
fn test_parse_price_empty() {
    assert_eq!(parse_price_to_minor_units("", Some("USD")), None);
    assert_eq!(parse_price_to_minor_units("   ", Some("USD")), None);
}

#[test]
fn test_parse_price_none_currency_defaults_to_100() {
    assert_eq!(parse_price_to_minor_units("99.99", None), Some(9999));
    assert_eq!(parse_price_to_minor_units("789", None), Some(78900));
}

#[test]
fn test_parse_price_jpy_zero_decimals() {
    assert_eq!(parse_price_to_minor_units("1500", Some("JPY")), Some(1500));
    assert_eq!(parse_price_to_minor_units("2980", Some("JPY")), Some(2980));
}

#[test]
fn test_parse_price_kwd_three_decimals() {
    assert_eq!(parse_price_to_minor_units("29.990", Some("KWD")), Some(29990));
    assert_eq!(parse_price_to_minor_units("5.500", Some("KWD")), Some(5500));
    assert_eq!(parse_price_to_minor_units("100", Some("KWD")), Some(100000));
}

#[test]
fn test_parse_price_rounds_half_to_even() {
    assert_eq!(parse_price_to_minor_units("1.005", Some("USD")), Some(100));
    assert_eq!(parse_price_to_minor_units("1.015", Some("USD")), Some(102));
    assert_eq!(parse_price_to_minor_units("1.0151", Some("USD")), Some(102));
    assert_eq!(parse_price_to_minor_units("2.5", Some("JPY")), Some(2));
    assert_eq!(parse_price_to_minor_units("3.5", Some("JPY")), Some(4));
}

#[test]
fn test_parse_price_rejects_non_decimals() {
    assert_eq!(parse_price_to_minor_units("1.2.3", Some("USD")), None);
    assert_eq!(parse_price_to_minor_units("...", Some("USD")), None);
    assert_eq!(parse_price_to_minor_units("-5", None), Some(500));
}

#[test]
fn test_parse_price_too_large_for_i64() {
    assert_eq!(parse_price_to_minor_units("100000000000000000", Some("USD")), None);
    assert_eq!(parse_price_to_minor_units("92233720368547758", Some("USD")), Some(9223372036854775800));
}

#[test]
fn test_clean_price_text_keeps_digits_and_points() {
    assert_eq!(clean_price_text("A$ 1,299.50 incl. GST"), "1299.50.");
    assert_eq!(clean_price_text("¥12,800"), "12800");
}

#[test]
fn test_minor_units_from_parts() {
    assert_eq!(minor_units_from_product(12345, 2), Some(123));
    assert_eq!(minor_units_from_product(12350, 2), Some(124));
    assert_eq!(minor_units_from_product(12250, 2), Some(122));
    assert_eq!(minor_units_from_decimal(7890, 1, 100), Some(78900));
    assert_eq!(minor_units_from_decimal(0, 3, 1000), Some(0));
}

#[test]
fn test_get_price_from_offer_string_price() {
    let offer = jv(r#"{"price": "789.00", "priceCurrency": "USD"}"#);
    let price = get_price_from_offer(&offer, "https://example.com/product");
    assert_eq!(price.price_minor_units, Some(78900));
    assert_eq!(price.price_currency, Some("USD".to_string()));
    assert_eq!(price.raw_price, Some("789.00".to_string()));
}

#[test]
fn test_get_price_from_offer_numeric_price() {
    let offer = jv(r#"{"price": 49.99, "priceCurrency": "EUR"}"#);
    let price = get_price_from_offer(&offer, "https://example.eu/product");
    assert_eq!(price.price_minor_units, Some(4999));
    assert_eq!(price.price_currency, Some("EUR".to_string()));
    assert_eq!(price.raw_price, Some("49.99".to_string()));
}

#[test]
fn test_get_price_from_offer_no_price() {
    let offer = jv(r#"{"availability": "InStock"}"#);
    let price = get_price_from_offer(&offer, "https://example.com/product");
    assert_eq!(price.price_minor_units, None);
    assert_eq!(price.price_currency, None);
    assert_eq!(price.raw_price, None);
}

#[test]
fn test_get_price_from_offer_jpy() {
    let offer = jv(r#"{"price": "1500", "priceCurrency": "JPY"}"#);
    let price = get_price_from_offer(&offer, "https://example.jp/product");
    assert_eq!(price.price_minor_units, Some(1500));
    assert_eq!(price.price_currency, Some("JPY".to_string()));
}

#[test]
fn test_get_price_from_offer_kwd() {
    let offer = jv(r#"{"price": "29.990", "priceCurrency": "KWD"}"#);
    let price = get_price_from_offer(&offer, "https://example.kw/product");
    assert_eq!(price.price_minor_units, Some(29990));
    assert_eq!(price.price_currency, Some("KWD".to_string()));
}

#[test]
fn price_parser_test_infer_currency_from_domain() {
    assert_eq!(infer_currency_from_domain("https://store.com.au/products/test"), Some("AUD".to_string()));
    assert_eq!(infer_currency_from_domain("https://shop.co.uk/products/test"), Some("GBP".to_string()));
    assert_eq!(infer_currency_from_domain("https://example.ca/products/test"), Some("CAD".to_string()));
    assert_eq!(infer_currency_from_domain("https://store.com/products/test"), Some("USD".to_string()));
    assert_eq!(infer_currency_from_domain("https://unknown.xyz/products/test"), None);
}

#[test]
fn test_infer_currency_from_domain_unparsable_url() {
    assert_eq!(infer_currency_from_domain("not a url"), None);
    assert_eq!(infer_currency_from_domain("https://shop.co.nz/p"), Some("NZD".to_string()));
    assert_eq!(infer_currency_from_domain("https://shop.us/p"), Some("USD".to_string()));
}

#[test]
fn test_infer_currency_from_path() {
    assert_eq!(infer_currency_from_path("https://store.com/en-au/products/test"), Some("AUD".to_string()));
    assert_eq!(infer_currency_from_path("https://shop.com/en-nz/products/test"), Some("NZD".to_string()));
    assert_eq!(infer_currency_from_path("https://shop.com/en-gb/products/test"), Some("GBP".to_string()));
    assert_eq!(infer_currency_from_path("https://example.com/en-uk/products/test"), Some("GBP".to_string()));
    assert_eq!(infer_currency_from_path("https://store.com/en-ca/products/test"), Some("CAD".to_string()));
    assert_eq!(infer_currency_from_path("https://example.com/en-us/products/test"), Some("USD".to_string()));
    assert_eq!(infer_currency_from_path("https://shop.com/fr-ca/products/test"), Some("CAD".to_string()));
    assert_eq!(infer_currency_from_path("https://example.com/en-eu/products/test"), Some("EUR".to_string()));
    assert_eq!(infer_currency_from_path("https://store.com/products/test"), None);
}

#[test]
fn test_infer_currency_from_path_dash_suffix() {
    assert_eq!(infer_currency_from_path("https://store.com/en-au-x/products/test"), Some("AUD".to_string()));
}

#[test]
fn test_get_price_from_offer_path_locale_takes_precedence() {
    let offer = jv(r#"{"price": "99.99", "priceCurrency": "GBP"}"#);
    let price = get_price_from_offer(&offer, "https://reyllen.com/en-au/products/test");
    assert_eq!(price.price_minor_units, Some(9999));
    assert_eq!(price.price_currency, Some("AUD".to_string()));
    assert_eq!(price.raw_price, Some("99.99".to_string()));
}

#[test]
fn test_get_price_from_offer_domain_fallback() {
    let offer = jv(r#"{"price": "49.99", "priceCurrency": "USD"}"#);
    let price = get_price_from_offer(&offer, "https://store.com.au/products/test");
    assert_eq!(price.price_minor_units, Some(4999));
    assert_eq!(price.price_currency, Some("AUD".to_string()));
}

#[test]
fn test_get_price_from_offer_api_fallback() {
    let offer = jv(r#"{"price": "29.99", "priceCurrency": "EUR"}"#);
    let price = get_price_from_offer(&offer, "https://unknown.xyz/products/test");
    assert_eq!(price.price_minor_units, Some(2999));
    assert_eq!(price.price_currency, Some("EUR".to_string()));
}

#[test]
fn test_get_price_from_offer_currency_factor_applies() {
    let offer = jv(r#"{"price": "1500", "priceCurrency": "JPY"}"#);
    let price = get_price_from_offer(&offer, "https://store.com/products/x");
    assert_eq!(price.price_currency, Some("USD".to_string()));
    assert_eq!(price.price_minor_units, Some(150000));
}

#[test]
fn test_has_path_locale_en_au_with_slashes() {
    assert!(has_path_locale("https://reyllen.com/en-au/products/backpack"));
}

#[test]
fn test_has_path_locale_en_au_mixed_case() {
    assert!(has_path_locale("https://example.com/EN-AU/products/item"));
}

#[test]
fn test_has_path_locale_en_nz() {
    assert!(has_path_locale("https://example.com/en-nz/products/item"));
}

#[test]
fn test_has_path_locale_en_gb() {
    assert!(has_path_locale("https://example.com/en-gb/products/item"));
}

#[test]
fn test_has_path_locale_en_us() {
    assert!(has_path_locale("https://example.com/en-us/products/item"));
}

#[test]
fn test_has_path_locale_en_ca() {
    assert!(has_path_locale("https://example.com/en-ca/products/item"));
}

#[test]
fn test_has_path_locale_fr_ca() {
    assert!(has_path_locale("https://example.com/fr-ca/products/item"));
}

#[test]
fn test_has_path_locale_no_path_locale() {
    assert!(!has_path_locale("https://example.com/products/item"));
}

#[test]
fn test_has_path_locale_partial_match_no_slashes() {
    assert!(!has_path_locale("https://example-en-au.com/products/item"));
}

#[test]
fn test_has_path_locale_query_param_locale() {
    assert!(!has_path_locale("https://example.com/products/item?locale=en-au"));
}

#[test]
fn test_price_info_default_is_empty() {
    let p = PriceInfo::default();
    assert_eq!(p.price_minor_units, None);
    assert_eq!(p.price_currency, None);
    assert_eq!(p.raw_price, None);
}
