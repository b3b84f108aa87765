use product_stalker::error::AppError;
use product_stalker::price::infer_currency_from_domain;
use product_stalker::shopify::{
    build_product_json_result, extract_price_from_variant, extract_product_handle, extract_variant_id,
    find_target_variant, get_base_url, has_products_path_segment, is_cart_error_out_of_stock,
    is_known_non_shopify_store, is_potential_shopify_product_url, is_shopify_store, parse_cart_error_body,
    result_from_cart, variant_id_list, CartAvailabilityResult, ShopifyContext, ShopifyVariant,
};
use product_stalker::status::AvailabilityStatus;

#[test]
fn test_is_potential_shopify_product_url() {
    assert!(is_potential_shopify_product_url("https://rushfaster.com.au/products/able-carry-thirteen-daybag-x-pac"));
    assert!(is_potential_shopify_product_url("https://store.myshopify.com/products/test-product?variant=123"));
    assert!(is_potential_shopify_product_url("https://example.com/collections/all/products/my-product"));
    assert!(!is_potential_shopify_product_url("https://amazon.com/dp/B12345"));
    assert!(!is_potential_shopify_product_url("https://example.com/product/123"));
    assert!(!is_potential_shopify_product_url("https://chemistwarehouse.com.au/products/test"));
}

#[test]
fn test_has_products_path_segment() {
    assert!(has_products_path_segment("https://example.com/products/test"));
    assert!(has_products_path_segment("https://example.com/collections/all/products/test"));
    assert!(!has_products_path_segment("https://example.com/product/test"));
    assert!(!has_products_path_segment("https://example.com/items/test"));
    assert!(!has_products_path_segment("https://example.com/byproducts/test"));
}

#[test]
fn test_has_products_path_segment_odd_urls() {
    assert!(!has_products_path_segment("not a url"));
    assert!(!has_products_path_segment("mailto:products@example.com"));
}

#[test]
fn test_is_known_non_shopify_store() {
    assert!(is_known_non_shopify_store("https://chemistwarehouse.com.au/products/test"));
    assert!(is_known_non_shopify_store("https://www.chemistwarehouse.com.au/buy/123"));
    assert!(!is_known_non_shopify_store("https://rushfaster.com.au/products/test"));
    assert!(!is_known_non_shopify_store("https://example.com/products/test"));
}

#[test]
fn test_is_shopify_store() {
    assert!(is_shopify_store(r#"<html><script>Shopify.shop = "mystore"</script></html>"#));
    assert!(is_shopify_store(r#"<html><link href="https://cdn.shopify.com/s/files/1/123/style.css"></html>"#));
    assert!(is_shopify_store(r#"<html><div class="shopify-section"></div></html>"#));
    assert!(!is_shopify_store("<html><body>Normal page</body></html>"));
}

#[test]
fn test_extract_product_handle() {
    assert_eq!(extract_product_handle("https://store.com/products/my-product"), Some("my-product".to_string()));
    assert_eq!(extract_product_handle("https://store.com/products/my-product?variant=123"), Some("my-product".to_string()));
    assert_eq!(extract_product_handle("https://store.com/collections/all/products/test"), Some("test".to_string()));
    assert_eq!(extract_product_handle("https://store.com/cart"), None);
}

#[test]
fn test_extract_product_handle_edge_cases() {
    assert_eq!(extract_product_handle("https://store.com/products/"), Some("".to_string()));
    assert_eq!(extract_product_handle("https://store.com/products"), None);
    assert_eq!(extract_product_handle("https://store.com/products/a%3Fb"), Some("a%3Fb".to_string()));
}

#[test]
fn shopify_test_extract_variant_id() {
    assert_eq!(extract_variant_id("https://store.com/products/test?variant=45237546025126"), Some(45237546025126));
    assert_eq!(extract_variant_id("https://store.com/products/test"), None);
    assert_eq!(extract_variant_id("https://store.com/products/test?color=blue"), None);
}

#[test]
fn test_extract_variant_id_not_a_number() {
    assert_eq!(extract_variant_id("https://store.com/products/test?variant=abc&variant=5"), None);
    assert_eq!(extract_variant_id("https://store.com/products/test?variant=-7"), Some(-7));
}

#[test]
fn test_get_base_url() {
    assert_eq!(get_base_url("https://rushfaster.com.au/products/test?variant=123"), Some("https://rushfaster.com.au".to_string()));
    assert_eq!(get_base_url("http://localhost:3000/products/test"), Some("http://localhost:3000".to_string()));
    assert_eq!(get_base_url("https://example.com:443/products/test"), Some("https://example.com".to_string()));
}

#[test]
fn test_find_target_variant() {
    let variants = vec![
        ShopifyVariant { id: 100, price: "10.00".to_string(), available: Some(true), price_currency: None },
        ShopifyVariant { id: 200, price: "20.00".to_string(), available: Some(false), price_currency: None },
    ];
    let result = find_target_variant(&variants, Some(200)).unwrap();
    assert_eq!(result.id, 200);
    let result = find_target_variant(&variants, None).unwrap();
    assert_eq!(result.id, 100);
    let result = find_target_variant(&variants, Some(999));
    assert!(result.is_err());
    let result = find_target_variant(&[], None);
    assert!(result.is_err());
}

#[test]
fn test_find_target_variant_error_messages() {
    let variants = vec![
        ShopifyVariant { id: 100, price: String::new(), available: None, price_currency: None },
        ShopifyVariant { id: -2, price: String::new(), available: None, price_currency: None },
    ];
    match find_target_variant(&variants, Some(999)) {
        Err(AppError::External(m)) => assert_eq!(m, "Variant 999 not found. Available: [100, -2]"),
        other => panic!("unexpected {:?}", other),
    }
    match find_target_variant(&[], Some(1)) {
        Err(AppError::External(m)) => assert_eq!(m, "No variants found in product.json"),
        other => panic!("unexpected {:?}", other),
    }
    assert_eq!(variant_id_list(&variants[..1]), "[100]");
    assert_eq!(variant_id_list(&[]), "[]");
}

#[test]
fn test_extract_price_from_variant() {
    let variant = ShopifyVariant {
        id: 123,
        price: "330.00".to_string(),
        available: Some(true),
        price_currency: Some("AUD".to_string()),
    };
    let price = extract_price_from_variant(&variant, "https://store.com.au/products/test");
    assert_eq!(price.price_minor_units, Some(33000));
    assert_eq!(price.price_currency, Some("AUD".to_string()));
    assert_eq!(price.raw_price, Some("330.00".to_string()));
}

#[test]
fn test_extract_price_from_variant_empty_price() {
    let variant = ShopifyVariant { id: 123, price: "".to_string(), available: None, price_currency: None };
    let price = extract_price_from_variant(&variant, "https://store.com/products/test");
    assert_eq!(price.price_minor_units, None);
    assert_eq!(price.price_currency, None);
    assert_eq!(price.raw_price, None);
}

#[test]
fn test_extract_price_infers_currency_from_domain() {
    let variant = ShopifyVariant { id: 123, price: "50.00".to_string(), available: Some(true), price_currency: None };
    let price = extract_price_from_variant(&variant, "https://store.com.au/products/test");
    assert_eq!(price.price_currency, Some("AUD".to_string()));
    let price = extract_price_from_variant(&variant, "https://store.co.uk/products/test");
    assert_eq!(price.price_currency, Some("GBP".to_string()));
    let price = extract_price_from_variant(&variant, "https://store.com/products/test");
    assert_eq!(price.price_currency, Some("USD".to_string()));
    let price = extract_price_from_variant(&variant, "https://store.ca/products/test");
    assert_eq!(price.price_currency, Some("CAD".to_string()));
    let price = extract_price_from_variant(&variant, "https://store.co.nz/products/test");
    assert_eq!(price.price_currency, Some("NZD".to_string()));
}

#[test]
fn test_extract_price_variant_currency_takes_precedence() {
    let variant = ShopifyVariant {
        id: 123,
        price: "50.00".to_string(),
        available: Some(true),
        price_currency: Some("EUR".to_string()),
    };
    let price = extract_price_from_variant(&variant, "https://store.com.au/products/test");
    assert_eq!(price.price_currency, Some("EUR".to_string()));
}

#[test]
fn shopify_test_infer_currency_from_domain() {
    assert_eq!(infer_currency_from_domain("https://store.com.au/products/test"), Some("AUD".to_string()));
    assert_eq!(infer_currency_from_domain("https://store.co.uk/products/test"), Some("GBP".to_string()));
    assert_eq!(infer_currency_from_domain("https://store.com/products/test"), Some("USD".to_string()));
    assert_eq!(infer_currency_from_domain("https://store.ca/products/test"), Some("CAD".to_string()));
    assert_eq!(infer_currency_from_domain("https://store.co.nz/products/test"), Some("NZD".to_string()));
    assert_eq!(infer_currency_from_domain("https://store.eu/products/test"), Some("EUR".to_string()));
    assert_eq!(infer_currency_from_domain("https://store.xyz/products/test"), None);
}

#[test]
fn test_is_cart_error_out_of_stock() {
    assert!(is_cart_error_out_of_stock("this product is sold out"));
    assert!(is_cart_error_out_of_stock("item not available"));
    assert!(is_cart_error_out_of_stock("out of stock"));
    assert!(is_cart_error_out_of_stock("no longer available"));
    assert!(is_cart_error_out_of_stock("insufficient inventory"));
    assert!(is_cart_error_out_of_stock("all items are out of stock"));
    assert!(!is_cart_error_out_of_stock("added to cart"));
    assert!(!is_cart_error_out_of_stock("success"));
    assert!(!is_cart_error_out_of_stock("inventory updated"));
}

#[test]
fn test_parse_cart_error_body_out_of_stock() {
    let r = parse_cart_error_body(r#"{"status": 422, "message": "Cart Error", "description": "All items are SOLD OUT"}"#, "422 Unprocessable Entity");
    assert!(r.is_err());
    let r = parse_cart_error_body(r#"{"description": "All items are SOLD OUT"}"#, "422 Unprocessable Entity").unwrap();
    assert_eq!(r.status, AvailabilityStatus::OutOfStock);
    assert_eq!(r.raw_availability, "cart_api:out_of_stock:all items are sold out");
}

#[test]
fn test_parse_cart_error_body_unexpected() {
    match parse_cart_error_body("Too many requests", "429 Too Many Requests") {
        Err(AppError::External(m)) => assert_eq!(m, "Cart API returned unexpected response: HTTP 429 Too Many Requests - Too many requests"),
        other => panic!("unexpected {:?}", other),
    }
    let long = "x".repeat(150);
    match parse_cart_error_body(&long, "500 Internal Server Error") {
        Err(AppError::External(m)) => assert!(m.ends_with(&"x".repeat(100)) && !m.ends_with(&"x".repeat(101))),
        other => panic!("unexpected {:?}", other),
    }
}

#[test]
fn test_context_from_url() {
    let ctx = ShopifyContext::from_url("https://rushfaster.com.au/products/daybag?variant=42").unwrap();
    assert_eq!(ctx.base_url, "https://rushfaster.com.au");
    assert_eq!(ctx.handle, "daybag");
    assert_eq!(ctx.variant_id, Some(42));
    assert_eq!(ctx.product_json_url(), "https://rushfaster.com.au/products/daybag.json");
    assert_eq!(ctx.cart_add_url(), "https://rushfaster.com.au/cart/add.js");
    assert!(ShopifyContext::from_url("https://store.com/cart").is_err());
    assert!(ShopifyContext::from_url("nonsense").is_err());
}

#[test]
fn test_product_json_and_cart_results() {
    let v = ShopifyVariant { id: 1, price: "12.00".to_string(), available: Some(false), price_currency: None };
    let r = build_product_json_result(false, &v, "https://shop.com.au/products/x");
    assert_eq!(r.status, AvailabilityStatus::OutOfStock);
    assert_eq!(r.raw_availability, Some("product_json:unavailable".to_string()));
    assert_eq!(r.price.price_minor_units, Some(1200));
    let r = result_from_cart(CartAvailabilityResult::in_stock(), &v, "https://shop.com.au/products/x");
    assert_eq!(r.status, AvailabilityStatus::InStock);
    assert_eq!(r.raw_availability, Some("cart_api:in_stock".to_string()));
}
