use product_stalker::availability::{
    AvailabilityService, CheckRecord, DailyPriceComparison, ProductCheckContext, ProductRecord,
};
use product_stalker::commands::{CombinedUpdateParams, CoreSettings};
use product_stalker::error::AppError;
use product_stalker::fetch::{
    after_headless, after_http, FetchStep, PageFetch, BOT_PROTECTION_MESSAGE,
    HEADLESS_FIRST_MESSAGE, MANUAL_VERIFICATION_MESSAGE,
};
use product_stalker::status::AvailabilityStatus;
use product_stalker::tray::{click_action, menu_action, TrayAction};

fn external(step: FetchStep) -> String {
    match step {
        FetchStep::Fail(AppError::External(m)) => m,
        other => panic!("expected an external failure, got {:?}", other),
    }
}

// Fetching with fallbacks

#[test]
fn plain_page_is_returned() {
    let html = "<html><body><h1>Widget</h1></body></html>".to_string();
    match after_http(PageFetch::Body(html.clone()), false, false) {
        FetchStep::Done(h) => assert_eq!(h, html),
        other => panic!("unexpected {:?}", other),
    }
}

#[test]
fn challenge_page_goes_to_headless_when_enabled() {
    let html = "<html><title>Just a moment...</title><div id=\"cf-browser-verification\"></div></html>";
    assert!(matches!(after_http(PageFetch::Body(html.to_string()), true, false), FetchStep::TryHeadless));
}

#[test]
fn blocked_without_headless_explains() {
    let step = after_http(PageFetch::Status(403, "https://shop.example".to_string()), false, false);
    assert_eq!(external(step), BOT_PROTECTION_MESSAGE);
    let step = after_http(PageFetch::Status(503, "https://shop.example".to_string()), false, true);
    assert_eq!(external(step), HEADLESS_FIRST_MESSAGE);
    assert!(matches!(
        after_http(PageFetch::Status(503, "https://shop.example".to_string()), true, true),
        FetchStep::TryHeadless
    ));
}

#[test]
fn other_status_fails_with_its_number_and_url() {
    let step = after_http(PageFetch::Status(404, "https://shop.example/item".to_string()), true, true);
    assert_eq!(external(step), "HTTP 404 for URL: https://shop.example/item");
}

#[test]
fn network_error_is_passed_on() {
    let step = after_http(PageFetch::Failed("connection refused".to_string()), true, true);
    assert_eq!(external(step), "connection refused");
}

#[test]
fn headless_page_is_returned() {
    match after_headless(Ok("<html>ok</html>".to_string()), false) {
        FetchStep::Done(h) => assert_eq!(h, "<html>ok</html>"),
        other => panic!("unexpected {:?}", other),
    }
}

#[test]
fn headless_captcha_leads_to_manual_verification_when_allowed() {
    let err = AppError::External("Page still shows a CAPTCHA".to_string());
    assert!(matches!(after_headless(Err(err), true), FetchStep::ManualVerification));
    let err = AppError::External("Cloudflare challenge not solved".to_string());
    assert_eq!(external(after_headless(Err(err), false)), MANUAL_VERIFICATION_MESSAGE);
}

#[test]
fn other_headless_errors_are_passed_on() {
    let err = AppError::Internal("Headless task failed: panicked".to_string());
    match after_headless(Err(err), true) {
        FetchStep::Fail(AppError::Internal(m)) => assert_eq!(m, "Headless task failed: panicked"),
        other => panic!("unexpected {:?}", other),
    }
    let err = AppError::External("Timeout".to_string());
    assert_eq!(external(after_headless(Err(err), true)), "Timeout");
}

// Tray

#[test]
fn tray_menu_actions() {
    assert_eq!(menu_action("quit"), TrayAction::Quit);
    assert_eq!(menu_action("show"), TrayAction::ShowMain);
    assert_eq!(menu_action("hide"), TrayAction::HideMain);
    assert_eq!(menu_action("other"), TrayAction::Ignore);
}

#[test]
fn tray_left_click_toggles_window() {
    assert_eq!(click_action(true, true, Some(true)), TrayAction::HideMain);
    assert_eq!(click_action(true, true, Some(false)), TrayAction::ShowMain);
    assert_eq!(click_action(true, true, None), TrayAction::ShowMain);
    assert_eq!(click_action(true, false, Some(true)), TrayAction::Ignore);
    assert_eq!(click_action(false, true, Some(true)), TrayAction::Ignore);
}

// Single checks

fn product() -> ProductRecord {
    ProductRecord { id: "p-1".to_string(), name: "Widget".to_string(), currency: Some("EUR".to_string()) }
}

#[test]
fn context_error_gives_unknown_with_message() {
    let (bulk, result) = AvailabilityService::build_context_error_result(
        &product(),
        AppError::Database("locked".to_string()),
    );
    assert_eq!(result.status, AvailabilityStatus::Unknown);
    assert_eq!(result.error, Some("Database error: locked".to_string()));
    assert!(!result.is_back_in_stock && !result.is_price_drop);
    assert_eq!(bulk.product_id, "p-1");
    assert_eq!(bulk.product_name, "Widget");
    assert_eq!(bulk.error, Some("Database error: locked".to_string()));
    assert!(bulk.currency_exponent.is_none());
}

#[test]
fn finish_single_check_with_retailer() {
    let check = CheckRecord {
        status: "in_stock".to_string(),
        error_message: None,
        price_minor_units: Some(1500),
        price_currency: None,
    };
    let context = ProductCheckContext { previous_status: Some(AvailabilityStatus::OutOfStock) };
    let daily = DailyPriceComparison {
        today_average_minor_units: Some(1500),
        yesterday_average_minor_units: Some(2000),
    };
    let (bulk, result) = AvailabilityService::finish_single_check(
        &product(),
        &context,
        Ok(check),
        Ok(daily),
        Some(("r-9", "https://shop.example/w")),
    );
    assert_eq!(result.status, AvailabilityStatus::InStock);
    assert!(result.is_back_in_stock);
    assert!(result.is_price_drop);
    assert_eq!(bulk.product_retailer_id, Some("r-9".to_string()));
    assert_eq!(bulk.url, Some("https://shop.example/w".to_string()));
    assert_eq!(bulk.previous_status, Some(AvailabilityStatus::OutOfStock));
    // no check currency: the product's currency gives the exponent
    assert_eq!(bulk.currency_exponent, Some(2));
    assert_eq!(bulk.today_average_price_minor_units, Some(1500));
}

#[test]
fn finish_single_check_without_comparison_is_an_error_result() {
    let check = CheckRecord {
        status: "in_stock".to_string(),
        error_message: None,
        price_minor_units: None,
        price_currency: None,
    };
    let context = ProductCheckContext { previous_status: None };
    let (bulk, result) = AvailabilityService::finish_single_check(
        &product(),
        &context,
        Ok(check),
        Err(AppError::Internal("query failed".to_string())),
        None,
    );
    assert_eq!(result.error, Some("Internal error: query failed".to_string()));
    assert_eq!(result.status, AvailabilityStatus::Unknown);
    assert!(bulk.product_retailer_id.is_none());
    assert_eq!(bulk.error, Some("Internal error: query failed".to_string()));
}

#[test]
fn any_retailer_back_in_stock() {
    let none: Vec<(Option<AvailabilityStatus>, AvailabilityStatus)> = vec![];
    assert!(!AvailabilityService::any_back_in_stock(&none));
    let some = vec![
        (Some(AvailabilityStatus::InStock), AvailabilityStatus::InStock),
        (Some(AvailabilityStatus::OutOfStock), AvailabilityStatus::InStock),
    ];
    assert!(AvailabilityService::any_back_in_stock(&some));
    let first_check = vec![(None, AvailabilityStatus::InStock)];
    assert!(!AvailabilityService::any_back_in_stock(&first_check));
}

// Settings updates

#[test]
fn core_settings_update_sets_given_fields_only() {
    let before = CoreSettings {
        theme: "system".to_string(),
        show_in_tray: true,
        launch_at_login: false,
        enable_logging: true,
        log_level: "info".to_string(),
        enable_notifications: true,
        sidebar_expanded: true,
        color_palette: "default".to_string(),
        display_timezone: "auto".to_string(),
        date_format: "system".to_string(),
        updated_at: "2024-01-01T00:00:00+00:00".to_string(),
    };
    let combined = CombinedUpdateParams {
        theme: Some("dark".to_string()),
        show_in_tray: Some(false),
        launch_at_login: None,
        enable_logging: None,
        log_level: Some("debug".to_string()),
        enable_notifications: None,
        sidebar_expanded: None,
        background_check_enabled: Some(true),
        background_check_interval_minutes: Some(30),
        enable_headless_browser: None,
        color_palette: None,
        display_timezone: Some("Europe/London".to_string()),
        date_format: None,
    };
    let after = before.apply_update(combined.core_params(), "2024-02-02T00:00:00+00:00".to_string());
    assert_eq!(after.theme, "dark");
    assert!(!after.show_in_tray);
    assert!(!after.launch_at_login);
    assert!(after.enable_logging);
    assert_eq!(after.log_level, "debug");
    assert!(after.enable_notifications);
    assert!(after.sidebar_expanded);
    assert_eq!(after.color_palette, "default");
    assert_eq!(after.display_timezone, "Europe/London");
    assert_eq!(after.date_format, "system");
    assert_eq!(after.updated_at, "2024-02-02T00:00:00+00:00");
}

// Next.js page props and JSON members

use product_stalker::json::JsonValue;
use product_stalker::next_data::{next_page_props, parse_chemist_warehouse_data};
use product_stalker::shopify::{
    after_cart, after_product_json, context_for_page, ProductJsonStep, ShopifyContext, ShopifyVariant,
};

fn conv(v: &serde_json::Value) -> JsonValue {
    match v {
        serde_json::Value::Null => JsonValue::Null,
        serde_json::Value::Bool(b) => JsonValue::Bool(*b),
        serde_json::Value::Number(n) => JsonValue::Number(n.to_string()),
        serde_json::Value::String(s) => JsonValue::String(s.clone()),
        serde_json::Value::Array(a) => JsonValue::Array(a.iter().map(conv).collect()),
        serde_json::Value::Object(m) => JsonValue::Object(m.iter().map(|(k, x)| (k.clone(), conv(x))).collect()),
    }
}

fn jv(text: &str) -> JsonValue {
    conv(&serde_json::from_str::<serde_json::Value>(text).unwrap())
}

#[test]
fn take_moves_a_member_out() {
    let v = jv(r#"{"a":1,"b":{"c":"x"}}"#);
    match v.take("b") {
        Some(JsonValue::Object(ms)) => assert_eq!(ms.len(), 1),
        other => panic!("unexpected {:?}", other),
    }
    assert!(jv(r#"{"a":1}"#).take("z").is_none());
    assert!(jv("[1,2]").take("a").is_none());
}

#[test]
fn page_props_from_next_data_script() {
    let html = r#"<html><head></head><body><script id="__NEXT_DATA__" type="application/json">{"props":{"pageProps":{"product":{"name":"Wipes","price":"4.99","availability":"InStock"}}}}</script></body></html>"#;
    let props = next_page_props(html).expect("page props");
    let result = parse_chemist_warehouse_data(&props).unwrap();
    assert_eq!(result.price.price_minor_units, Some(499));
    assert!(next_page_props("<html><body>nothing</body></html>").is_none());
    let broken = r#"<script id="__NEXT_DATA__">{not json</script>"#;
    assert!(next_page_props(broken).is_none());
}

// Shopify steps

fn shop_context() -> ShopifyContext {
    context_for_page(
        "https://shop.example.com/products/cool-shirt?variant=222",
        "<script src=\"https://cdn.shopify.com/s/x.js\"></script>",
    )
    .unwrap()
}

fn variants(available: Option<bool>) -> Vec<ShopifyVariant> {
    vec![
        ShopifyVariant { id: 111, price: "10.00".to_string(), available: Some(true), price_currency: None },
        ShopifyVariant { id: 222, price: "25.50".to_string(), available, price_currency: Some("USD".to_string()) },
    ]
}

#[test]
fn context_requires_shopify_markers() {
    match context_for_page("https://shop.example.com/products/x", "<html></html>") {
        Err(AppError::External(m)) => assert_eq!(m, "Not a Shopify store"),
        other => panic!("unexpected {:?}", other),
    }
    let ctx = shop_context();
    assert_eq!(ctx.variant_id, Some(222));
    assert_eq!(ctx.product_json_url(), "https://shop.example.com/products/cool-shirt.json");
}

#[test]
fn product_json_availability_decides() {
    let ctx = shop_context();
    match after_product_json(&variants(Some(false)), &ctx).unwrap() {
        ProductJsonStep::Done(r) => {
            assert_eq!(r.status, AvailabilityStatus::OutOfStock);
            assert_eq!(r.raw_availability, Some("product_json:unavailable".to_string()));
            assert_eq!(r.price.price_minor_units, Some(2550));
        }
        other => panic!("unexpected {:?}", other),
    }
    match after_product_json(&variants(None), &ctx).unwrap() {
        ProductJsonStep::AskCart(i) => assert_eq!(i, 1),
        other => panic!("unexpected {:?}", other),
    }
    let missing = vec![ShopifyVariant { id: 5, price: String::new(), available: None, price_currency: None }];
    match after_product_json(&missing, &ctx) {
        Err(AppError::External(m)) => assert_eq!(m, "Variant 222 not found. Available: [5]"),
        other => panic!("unexpected {:?}", other),
    }
}

#[test]
fn cart_answers_decide() {
    let vs = variants(None);
    let r = after_cart(true, "", "200 OK", &vs[1], "https://shop.example.com/products/cool-shirt").unwrap();
    assert_eq!(r.status, AvailabilityStatus::InStock);
    assert_eq!(r.raw_availability, Some("cart_api:in_stock".to_string()));
    let body = r#"{"status":422,"message":"Cart Error","description":"The product is already sold out."}"#;
    // the message comes before the description, and "cart error" names no stock condition
    assert!(after_cart(false, body, "422 Unprocessable Entity", &vs[1], "https://shop.example.com/p").is_err());
    let body = r#"{"description":"The product is already sold out."}"#;
    let r = after_cart(false, body, "422 Unprocessable Entity", &vs[1], "https://shop.example.com/p").unwrap();
    assert_eq!(r.status, AvailabilityStatus::OutOfStock);
    let body = r#"{"message":"Sold Out"}"#;
    let r = after_cart(false, body, "422 Unprocessable Entity", &vs[1], "https://shop.example.com/p").unwrap();
    assert_eq!(r.raw_availability, Some("cart_api:out_of_stock:sold out".to_string()));
    match after_cart(false, "oops", "500 Internal Server Error", &vs[1], "https://shop.example.com/p") {
        Err(AppError::External(m)) => assert_eq!(m, "Cart API returned unexpected response: HTTP 500 Internal Server Error - oops"),
        other => panic!("unexpected {:?}", other),
    }
}

// Re-normalization, check plans, windows, manual verification

use product_stalker::availability::CheckPlan;
use product_stalker::commands::{AddRetailerInput, AvailabilityCheckRecord, AvailabilityCheckResponse, CheapestPriceResult};
use product_stalker::renormalize::{normalized_values, renormalize_pass, PriceCheck, RenormalizeAction};
use product_stalker::services::{ManualVerificationService, VerificationStep};

#[test]
fn renormalized_values_per_action() {
    assert_eq!(normalized_values(RenormalizeAction::SameCurrency, 1000, 0, "EUR"), (Some(1000), Some("EUR".to_string())));
    assert_eq!(normalized_values(RenormalizeAction::Convert, 1000, 920, "EUR"), (Some(920), Some("EUR".to_string())));
    assert_eq!(normalized_values(RenormalizeAction::Clear, 1000, 920, "EUR"), (None, None));
}

#[test]
fn renormalize_pass_uses_original_price_and_counts_buckets() {
    let checks = vec![
        PriceCheck { price_minor_units: Some(1000), price_currency: Some("USD".to_string()), converted_minor_units: Some(920) },
        PriceCheck { price_minor_units: Some(500), price_currency: Some("eur".to_string()), converted_minor_units: None },
        PriceCheck { price_minor_units: Some(300), price_currency: Some("GBP".to_string()), converted_minor_units: None },
        PriceCheck { price_minor_units: None, price_currency: Some("USD".to_string()), converted_minor_units: None },
    ];
    let (summary, updates) = renormalize_pass(&checks, "EUR");
    assert_eq!(summary.total, 4);
    assert_eq!((summary.converted, summary.same_currency, summary.cleared), (1, 1, 1));
    assert_eq!(updates[0], Some((Some(920), Some("EUR".to_string()))));
    assert_eq!(updates[1], Some((Some(500), Some("EUR".to_string()))));
    assert_eq!(updates[2], Some((None, None)));
    assert_eq!(updates[3], None);
}

#[test]
fn check_plan_per_retailer_or_legacy() {
    assert_eq!(AvailabilityService::retailer_plan(false, 2).unwrap(), CheckPlan::PerRetailer(2));
    assert_eq!(AvailabilityService::retailer_plan(true, 3).unwrap(), CheckPlan::PerRetailer(3));
    assert_eq!(AvailabilityService::retailer_plan(true, 0).unwrap(), CheckPlan::Legacy);
    match AvailabilityService::retailer_plan(false, 0) {
        Err(AppError::Validation(m)) => assert_eq!(m, "Product has no URL set"),
        other => panic!("unexpected {:?}", other),
    }
}

#[test]
fn daily_windows_are_rolling_days() {
    assert_eq!(AvailabilityService::daily_windows(1_700_000_000), (1_700_000_000, 1_699_913_600, 1_699_827_200));
}

#[test]
fn manual_verification_polls_then_times_out() {
    assert!(matches!(ManualVerificationService::after_poll(1, Some(false)), VerificationStep::Verified));
    assert!(matches!(ManualVerificationService::after_poll(1, Some(true)), VerificationStep::PollAgain));
    assert!(matches!(ManualVerificationService::after_poll(59, None), VerificationStep::PollAgain));
    match ManualVerificationService::after_poll(60, Some(true)) {
        VerificationStep::TimedOut(AppError::External(m)) => assert_eq!(m, "Manual verification timed out. Please try again."),
        other => panic!("unexpected {:?}", other),
    }
}

#[test]
fn cheapest_price_keeps_other_fields() {
    let model = AvailabilityCheckRecord {
        id: "c-1".to_string(),
        product_id: "p-1".to_string(),
        product_retailer_id: Some("r-1".to_string()),
        status: "in_stock".to_string(),
        raw_availability: Some("http://schema.org/InStock".to_string()),
        error_message: None,
        checked_at: "2026-02-15T00:00:00+00:00".to_string(),
        price_minor_units: Some(78900),
        price_currency: Some("USD".to_string()),
        raw_price: Some("789.00".to_string()),
        normalized_price_minor_units: None,
        normalized_currency: None,
    };
    let r = AvailabilityCheckResponse::from_model(model)
        .with_cheapest_price(Some(CheapestPriceResult { price_minor_units: 3000, price_currency: "AUD".to_string() }));
    assert_eq!(r.product_id, "p-1");
    assert_eq!(r.product_retailer_id, Some("r-1".to_string()));
    assert_eq!(r.raw_availability, Some("http://schema.org/InStock".to_string()));
    assert_eq!(r.checked_at, "2026-02-15T00:00:00+00:00");
    assert_eq!(r.raw_price, Some("789.00".to_string()));
    assert_eq!(r.lowest_price_minor_units, Some(3000));
}

#[test]
fn add_retailer_input_gives_params() {
    let p = AddRetailerInput { product_id: "p".to_string(), url: "https://a.example/x".to_string(), label: Some("64GB".to_string()) }.params();
    assert_eq!(p.product_id, "p");
    assert_eq!(p.url, "https://a.example/x");
    assert_eq!(p.label, Some("64GB".to_string()));
}

// Cart bodies in array form, unreadable answers, variant ids

use product_stalker::shopify::{cart_message, extract_variant_id, read_cart_answer};

#[test]
fn cart_error_body_in_array_form() {
    assert_eq!(cart_message(r#"["Sold out"]"#), Some("sold out".to_string()));
    assert_eq!(cart_message(r#"[null, "No longer available"]"#), Some("no longer available".to_string()));
    assert_eq!(cart_message("[]"), Some(String::new()));
    assert_eq!(cart_message(r#"["a", "b", "c"]"#), None);
    assert_eq!(cart_message("[1]"), None);
    assert_eq!(cart_message(r#"{"message": 5}"#), None);
    let vs = variants(None);
    let r = after_cart(false, r#"["Sold out"]"#, "422 Unprocessable Entity", &vs[1], "https://shop.example.com/p").unwrap();
    assert_eq!(r.status, AvailabilityStatus::OutOfStock);
    assert_eq!(r.raw_availability, Some("cart_api:out_of_stock:sold out".to_string()));
}

#[test]
fn cart_answer_cut_inside_a_character_is_not_read() {
    let vs = variants(None);
    let body = format!("{}é and more text after it", "x".repeat(99));
    assert!(!body.is_char_boundary(100));
    assert!(read_cart_answer(false, &body, "500 Internal Server Error", &vs[1], "https://shop.example.com/p").is_none());
    let ok = read_cart_answer(false, "short", "500 Internal Server Error", &vs[1], "https://shop.example.com/p");
    assert!(matches!(ok, Some(Err(AppError::External(_)))));
    assert!(matches!(read_cart_answer(true, &body, "200 OK", &vs[1], "https://shop.example.com/p"), Some(Ok(_))));
}

#[test]
fn variant_ids_parse_as_signed_integers() {
    assert_eq!(extract_variant_id("https://s.example/products/x?variant=+7"), Some(7));
    assert_eq!(extract_variant_id("https://s.example/products/x?variant=-5"), Some(-5));
    assert_eq!(extract_variant_id("https://s.example/products/x?variant=9223372036854775807"), Some(i64::MAX));
    assert_eq!(extract_variant_id("https://s.example/products/x?variant=-9223372036854775808"), Some(i64::MIN));
    assert_eq!(extract_variant_id("https://s.example/products/x?variant=9223372036854775808"), None);
    assert_eq!(extract_variant_id("https://s.example/products/x?variant=12a"), None);
    assert_eq!(extract_variant_id("https://s.example/products/x?variant=-"), None);
    assert_eq!(extract_variant_id("https://s.example/products/x?variant="), None);
}
