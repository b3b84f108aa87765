use product_stalker::error::AppError;
use product_stalker::status::AvailabilityStatus;
use product_stalker::uniqlo::{
    build_result, extract_price, find_target_l2, is_uniqlo_product_url, map_stock_status, validate_response,
    ApiResponse, ApiResult, PriceEntry, PriceValue, StockEntry, UniqloContext, L2,
};

fn l2(color: &str, size: &str, id: &str) -> L2 {
    L2 { color_display_code: color.to_string(), size_display_code: size.to_string(), l2_id: id.to_string() }
}

fn aud(value: &str) -> PriceValue {
    PriceValue { currency_code: "AUD".to_string(), value: value.to_string() }
}

fn sample_result() -> ApiResult {
    ApiResult {
        l2s: vec![l2("07", "005", "111"), l2("07", "006", "222"), l2("08", "006", "333")],
        prices: vec![
            ("111".to_string(), PriceEntry { base: Some(aud("24.9")), promo: None }),
            ("222".to_string(), PriceEntry { base: Some(aud("24.9")), promo: None }),
            ("333".to_string(), PriceEntry { base: Some(aud("29.9")), promo: Some(aud("19.9")) }),
        ],
        stocks: vec![
            ("111".to_string(), StockEntry { status_code: "IN_STOCK".to_string() }),
            ("222".to_string(), StockEntry { status_code: "IN_STOCK".to_string() }),
            ("333".to_string(), StockEntry { status_code: "STOCK_OUT".to_string() }),
        ],
    }
}

#[test]
fn test_is_uniqlo_product_url() {
    assert!(is_uniqlo_product_url("https://www.uniqlo.com/au/en/products/E465185-000/00?colorDisplayCode=07"));
    assert!(is_uniqlo_product_url("https://www.uniqlo.com/sg/en/products/E465185-000/00"));
    assert!(!is_uniqlo_product_url("https://www.uniqlo.com/au/en/women"));
    assert!(!is_uniqlo_product_url("https://uniqlo.com.evil.com/au/products/test"));
    assert!(!is_uniqlo_product_url("https://example.com/products/test"));
}

#[test]
fn test_context_from_url_full_path() {
    let ctx = UniqloContext::from_url(
        "https://www.uniqlo.com/au/en/products/E465185-000/00?colorDisplayCode=07&sizeDisplayCode=006",
    )
    .unwrap();
    assert_eq!(ctx.region, "au");
    assert_eq!(ctx.lang, "en");
    assert_eq!(ctx.product_code, "E465185-000");
    assert_eq!(ctx.price_group, "00");
    assert_eq!(ctx.color_display_code.as_deref(), Some("07"));
    assert_eq!(ctx.size_display_code.as_deref(), Some("006"));
    assert_eq!(
        ctx.api_url(),
        "https://www.uniqlo.com/au/api/commerce/v5/en/products/E465185-000/price-groups/00/l2s?withPrices=true&withStocks=true&httpFailure=true"
    );
    assert_eq!(ctx.client_id(), "uq.au.web-spa");
}

#[test]
fn test_context_from_url_defaults() {
    let ctx = UniqloContext::from_url("https://www.uniqlo.com/sg/products/E123456-000").unwrap();
    assert_eq!(ctx.region, "sg");
    assert_eq!(ctx.lang, "en");
    assert_eq!(ctx.price_group, "00");
    assert_eq!(ctx.client_id(), "uq.sg.web-spa");
}

#[test]
fn test_context_from_url_missing_product_code() {
    let result = UniqloContext::from_url("https://www.uniqlo.com/au/en/women");
    assert!(result.is_err());
}

#[test]
fn test_context_from_url_errors() {
    match UniqloContext::from_url("https://www.uniqlo.com/au/en/products/") {
        Err(AppError::External(m)) => assert_eq!(m, "URL is missing the product code after '/products/'"),
        other => panic!("unexpected {:?}", other),
    }
    match UniqloContext::from_url("not a url") {
        Err(AppError::Validation(m)) => assert!(m.starts_with("Invalid URL: ")),
        other => panic!("unexpected {:?}", other),
    }
    let ctx = UniqloContext::from_url("https://www.uniqlo.com//au//en/products//E1/99").unwrap();
    assert_eq!(ctx.region, "au");
    assert_eq!(ctx.lang, "en");
    assert_eq!(ctx.product_code, "E1");
    assert_eq!(ctx.price_group, "99");
}

#[test]
fn test_build_result_matches_variant() {
    let result = sample_result();
    let scraping = build_result(&result, Some("07"), Some("006")).unwrap();
    assert_eq!(scraping.status, AvailabilityStatus::InStock);
    assert_eq!(scraping.raw_availability, Some("IN_STOCK".to_string()));
    assert_eq!(scraping.price.price_minor_units, Some(2490));
    assert_eq!(scraping.price.price_currency, Some("AUD".to_string()));
    assert_eq!(scraping.price.raw_price, Some("24.9".to_string()));
}

#[test]
fn test_build_result_out_of_stock_uses_promo_price() {
    let result = sample_result();
    let scraping = build_result(&result, Some("08"), Some("006")).unwrap();
    assert_eq!(scraping.status, AvailabilityStatus::OutOfStock);
    assert_eq!(scraping.price.price_minor_units, Some(1990));
    assert_eq!(scraping.price.raw_price, Some("19.9".to_string()));
}

#[test]
fn test_build_result_no_match() {
    let result = sample_result();
    let scraping = build_result(&result, Some("99"), Some("999"));
    assert!(scraping.is_err());
    match scraping {
        Err(AppError::External(m)) => assert_eq!(m, "No Uniqlo variant matched color=Some(\"99\"), size=Some(\"999\")"),
        other => panic!("unexpected {:?}", other),
    }
}

#[test]
fn test_build_result_first_variant_when_no_codes() {
    let result = sample_result();
    let scraping = build_result(&result, None, None).unwrap();
    assert_eq!(scraping.price.price_minor_units, Some(2490));
    assert_eq!(scraping.status, AvailabilityStatus::InStock);
}

#[test]
fn test_build_result_missing_entries() {
    let result = ApiResult { l2s: vec![l2("01", "002", "9")], prices: vec![], stocks: vec![] };
    let scraping = build_result(&result, Some("01"), None).unwrap();
    assert_eq!(scraping.status, AvailabilityStatus::Unknown);
    assert_eq!(scraping.raw_availability, None);
    assert_eq!(scraping.price.price_minor_units, None);
    let empty = ApiResult { l2s: vec![], prices: vec![], stocks: vec![] };
    match build_result(&empty, None, None) {
        Err(AppError::External(m)) => assert_eq!(m, "No variants found in Uniqlo API response"),
        other => panic!("unexpected {:?}", other),
    }
    assert_eq!(find_target_l2(&sample_result().l2s, None, Some("006")).unwrap(), 1);
}

#[test]
fn test_parse_response_rejects_nok_status() {
    let response = ApiResponse { status: "nok".to_string(), result: None };
    match validate_response(response) {
        Err(AppError::External(m)) => assert_eq!(m, "Uniqlo API returned status 'nok'"),
        other => panic!("unexpected {:?}", other),
    }
    let missing = ApiResponse { status: "ok".to_string(), result: None };
    assert!(validate_response(missing).is_err());
    let fine = ApiResponse { status: "ok".to_string(), result: Some(sample_result()) };
    assert_eq!(validate_response(fine).unwrap().l2s.len(), 3);
}

#[test]
fn test_map_stock_status() {
    assert_eq!(map_stock_status("IN_STOCK"), AvailabilityStatus::InStock);
    assert_eq!(map_stock_status("LOW_STOCK"), AvailabilityStatus::InStock);
    assert_eq!(map_stock_status("STOCK_OUT"), AvailabilityStatus::OutOfStock);
    assert_eq!(map_stock_status("SOLD_OUT"), AvailabilityStatus::OutOfStock);
    assert_eq!(map_stock_status("MYSTERY"), AvailabilityStatus::Unknown);
    assert_eq!(map_stock_status("back_in_stock"), AvailabilityStatus::InStock);
    assert_eq!(map_stock_status("out_of_stock"), AvailabilityStatus::OutOfStock);
}

#[test]
fn test_extract_price_without_values() {
    let p = extract_price(&PriceEntry { base: None, promo: None });
    assert_eq!(p.price_minor_units, None);
    assert_eq!(p.price_currency, None);
    let p = extract_price(&PriceEntry {
        base: None,
        promo: Some(PriceValue { currency_code: "JPY".to_string(), value: "1990".to_string() }),
    });
    assert_eq!(p.price_minor_units, Some(1990));
    assert_eq!(p.price_currency, Some("JPY".to_string()));
}
