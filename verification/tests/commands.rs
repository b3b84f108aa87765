use product_stalker::commands::{
    next_checker_step, CheckerStep, SplashscreenResult, UpdateInfo, DISABLED_POLL_INTERVAL_SECS,
    ERROR_RETRY_DELAY_SECS,
};
use product_stalker::window_labels;
use product_stalker::commands::{AvailabilityCheckRecord, AvailabilityCheckResponse, CheapestPriceResult};
use product_stalker::availability::DailyPriceComparison;

// Background checker

#[test]
fn test_error_retry_delay_is_reasonable() {
    assert!(ERROR_RETRY_DELAY_SECS > 0);
    assert!(ERROR_RETRY_DELAY_SECS <= 300);
}

#[test]
fn test_disabled_poll_interval_is_reasonable() {
    assert!(DISABLED_POLL_INTERVAL_SECS > 0);
    assert!(DISABLED_POLL_INTERVAL_SECS <= 300);
}

#[test]
fn checker_step_after_failed_settings_read_is_retry() {
    assert_eq!(next_checker_step(None), CheckerStep::RetryAfter(60));
}

#[test]
fn checker_step_when_disabled_is_poll() {
    assert_eq!(next_checker_step(Some((false, 15))), CheckerStep::PollAfter(60));
    assert_eq!(next_checker_step(Some((false, -5))), CheckerStep::PollAfter(60));
}

#[test]
fn checker_step_when_enabled_sleeps_for_interval() {
    assert_eq!(next_checker_step(Some((true, 15))), CheckerStep::CheckThenSleep(900));
    assert_eq!(next_checker_step(Some((true, 1440))), CheckerStep::CheckThenSleep(86400));
    assert_eq!(next_checker_step(Some((true, 0))), CheckerStep::CheckThenSleep(0));
}

// UpdateInfo construction tests

#[test]
fn test_update_info_available_with_body() {
    let info = UpdateInfo::available("1.2.3", Some("Release notes".to_string()));

    assert!(info.available);
    assert_eq!(info.version, Some("1.2.3".to_string()));
    assert_eq!(info.body, Some("Release notes".to_string()));
}

#[test]
fn test_update_info_available_without_body() {
    let info = UpdateInfo::available("2.0.0", None);

    assert!(info.available);
    assert_eq!(info.version, Some("2.0.0".to_string()));
    assert_eq!(info.body, None);
}

#[test]
fn test_update_info_available_with_string() {
    let info = UpdateInfo::available(String::from("1.0.0"), None);

    assert!(info.available);
    assert_eq!(info.version, Some("1.0.0".to_string()));
}

#[test]
fn test_update_info_none() {
    let info = UpdateInfo::none();

    assert!(!info.available);
    assert_eq!(info.version, None);
    assert_eq!(info.body, None);
}

#[test]
fn test_update_info_default() {
    let info = UpdateInfo::default();

    assert!(!info.available);
    assert_eq!(info.version, None);
    assert_eq!(info.body, None);
}

#[test]
fn test_update_info_default_equals_none() {
    assert_eq!(UpdateInfo::default(), UpdateInfo::none());
}

// Accessor method tests

#[test]
fn test_is_available_true() {
    let info = UpdateInfo::available("1.0.0", None);
    assert!(info.is_available());
}

#[test]
fn test_is_available_false() {
    let info = UpdateInfo::none();
    assert!(!info.is_available());
}

#[test]
fn test_version_accessor_some() {
    let info = UpdateInfo::available("3.2.1", None);
    assert_eq!(info.version(), Some("3.2.1"));
}

#[test]
fn test_version_accessor_none() {
    let info = UpdateInfo::none();
    assert_eq!(info.version(), None);
}

#[test]
fn test_body_accessor_some() {
    let info = UpdateInfo::available("1.0.0", Some("Bug fixes".to_string()));
    assert_eq!(info.body(), Some("Bug fixes"));
}

#[test]
fn test_body_accessor_none() {
    let info = UpdateInfo::available("1.0.0", None);
    assert_eq!(info.body(), None);
}

// Trait implementation tests

#[test]
fn test_update_info_clone() {
    let info = UpdateInfo::available("1.0.0", Some("Notes".to_string()));
    let cloned = info.clone();

    assert_eq!(info, cloned);
}

#[test]
fn test_update_info_debug() {
    let info = UpdateInfo::available("1.0.0", None);
    let debug_str = format!("{:?}", info);

    assert!(debug_str.contains("UpdateInfo"));
    assert!(debug_str.contains("available: true"));
    assert!(debug_str.contains("1.0.0"));
}

#[test]
fn test_update_info_partial_eq() {
    let info1 = UpdateInfo::available("1.0.0", None);
    let info2 = UpdateInfo::available("1.0.0", None);
    let info3 = UpdateInfo::available("2.0.0", None);

    assert_eq!(info1, info2);
    assert_ne!(info1, info3);
}

#[test]
fn test_update_info_eq_with_different_body() {
    let info1 = UpdateInfo::available("1.0.0", Some("Notes A".to_string()));
    let info2 = UpdateInfo::available("1.0.0", Some("Notes B".to_string()));

    assert_ne!(info1, info2);
}

// Edge case tests

#[test]
fn test_update_info_with_semver_prerelease() {
    let info = UpdateInfo::available("1.0.0-beta.1", None);
    assert_eq!(info.version(), Some("1.0.0-beta.1"));
}

#[test]
fn test_update_info_with_long_version() {
    let info = UpdateInfo::available("1.2.3.4.5", None);
    assert_eq!(info.version(), Some("1.2.3.4.5"));
}

#[test]
fn test_update_info_with_multiline_body() {
    let body = "## Changes\n- Bug fix 1\n- Bug fix 2\n\n## Notes\nImportant update";
    let info = UpdateInfo::available("1.0.0", Some(body.to_string()));

    assert!(info.body().unwrap().contains("Bug fix 1"));
    assert!(info.body().unwrap().contains("\n"));
}

#[test]
fn test_update_info_with_unicode_body() {
    let info = UpdateInfo::available("1.0.0", Some("更新说明 🚀".to_string()));
    assert!(info.body().unwrap().contains("🚀"));
}

#[test]
fn test_update_info_with_empty_body() {
    let info = UpdateInfo::available("1.0.0", Some(String::new()));
    assert_eq!(info.body(), Some(""));
}

// Window transition tests

#[test]
fn test_window_labels() {
    assert_eq!(window_labels::SPLASH, "splash");
    assert_eq!(window_labels::MAIN, "main");
}

#[test]
fn test_default_equals_no_windows() {
    assert_eq!(SplashscreenResult::default(), SplashscreenResult::no_windows());
    assert!(!SplashscreenResult::default().splash_closed);
    assert!(!SplashscreenResult::default().main_shown);
}

#[test]
fn test_all_state_combinations() {
    let states = [(false, false), (false, true), (true, false), (true, true)];

    for (splash, main) in states {
        let result = SplashscreenResult::new(splash, main);
        assert_eq!(result.splash_closed, splash);
        assert_eq!(result.main_shown, main);
        assert_eq!(result.is_complete(), splash && main);
        assert_eq!(result.main_visible(), main);

        assert_eq!(result.clone(), result);
    }
}

#[test]
fn test_success_constructor() {
    let result = SplashscreenResult::success();
    assert!(result.is_complete());
    assert!(result.main_visible());
}

// Availability responses

fn test_model() -> AvailabilityCheckRecord {
    AvailabilityCheckRecord {
        id: "0b7d3f7e-1111-4c1a-9d3e-000000000001".to_string(),
        product_id: "0b7d3f7e-2222-4c1a-9d3e-000000000002".to_string(),
        product_retailer_id: None,
        status: "in_stock".to_string(),
        raw_availability: Some("http://schema.org/InStock".to_string()),
        error_message: None,
        checked_at: "2026-02-15T00:00:00+00:00".to_string(),
        price_minor_units: Some(78900),
        price_currency: Some("USD".to_string()),
        raw_price: Some("789.00".to_string()),
        normalized_price_minor_units: None,
        normalized_currency: None,
    }
}

#[test]
fn test_availability_check_response_from_model() {
    let model = test_model();
    let id = model.id.clone();
    let product_id = model.product_id.clone();

    let response = AvailabilityCheckResponse::from_model(model);

    assert_eq!(response.id, id);
    assert_eq!(response.product_id, product_id);
    assert_eq!(response.status, "in_stock");
    assert_eq!(response.raw_availability, Some("http://schema.org/InStock".to_string()));
    assert!(response.error_message.is_none());
    assert!(!response.checked_at.is_empty());
    assert_eq!(response.price_minor_units, Some(78900));
    assert_eq!(response.price_currency, Some("USD".to_string()));
    assert_eq!(response.raw_price, Some("789.00".to_string()));
    assert_eq!(response.currency_exponent, Some(2));
    assert!(response.today_average_price_minor_units.is_none());
    assert!(response.yesterday_average_price_minor_units.is_none());
    assert!(!response.is_price_drop);
    assert!(response.lowest_price_minor_units.is_none());
    assert!(response.lowest_price_currency.is_none());
    assert!(response.lowest_currency_exponent.is_none());
    assert!(response.normalized_price_minor_units.is_none());
    assert!(response.normalized_currency.is_none());
    assert!(response.normalized_currency_exponent.is_none());
}

#[test]
fn test_availability_check_response_with_error() {
    let model = AvailabilityCheckRecord {
        status: "unknown".to_string(),
        raw_availability: None,
        error_message: Some("Failed to fetch page".to_string()),
        price_minor_units: None,
        price_currency: None,
        raw_price: None,
        ..test_model()
    };

    let response = AvailabilityCheckResponse::from_model(model);

    assert_eq!(response.status, "unknown");
    assert!(response.raw_availability.is_none());
    assert_eq!(response.error_message, Some("Failed to fetch page".to_string()));
    assert!(response.price_minor_units.is_none());
    assert!(response.currency_exponent.is_none());
    assert!(!response.is_price_drop);
    assert!(response.lowest_price_minor_units.is_none());
}

#[test]
fn test_availability_check_response_with_daily_comparison_price_drop() {
    let model = test_model();
    let daily_comparison = DailyPriceComparison {
        today_average_minor_units: Some(78900),
        yesterday_average_minor_units: Some(89900),
    };

    let response = AvailabilityCheckResponse::from_model_with_daily_comparison(model, daily_comparison);

    assert_eq!(response.price_minor_units, Some(78900));
    assert_eq!(response.currency_exponent, Some(2));
    assert_eq!(response.today_average_price_minor_units, Some(78900));
    assert_eq!(response.yesterday_average_price_minor_units, Some(89900));
    assert!(response.is_price_drop);
}

#[test]
fn test_availability_check_response_with_daily_comparison_price_increase() {
    let model = AvailabilityCheckRecord {
        raw_availability: None,
        price_minor_units: Some(99900),
        raw_price: None,
        ..test_model()
    };
    let daily_comparison = DailyPriceComparison {
        today_average_minor_units: Some(99900),
        yesterday_average_minor_units: Some(78900),
    };

    let response = AvailabilityCheckResponse::from_model_with_daily_comparison(model, daily_comparison);

    assert_eq!(response.price_minor_units, Some(99900));
    assert_eq!(response.currency_exponent, Some(2));
    assert_eq!(response.today_average_price_minor_units, Some(99900));
    assert_eq!(response.yesterday_average_price_minor_units, Some(78900));
    assert!(!response.is_price_drop);
}

#[test]
fn test_availability_check_response_with_no_yesterday_data() {
    let model = AvailabilityCheckRecord { raw_availability: None, raw_price: None, ..test_model() };
    let daily_comparison = DailyPriceComparison {
        today_average_minor_units: Some(78900),
        yesterday_average_minor_units: None,
    };

    let response = AvailabilityCheckResponse::from_model_with_daily_comparison(model, daily_comparison);

    assert_eq!(response.price_minor_units, Some(78900));
    assert_eq!(response.currency_exponent, Some(2));
    assert_eq!(response.today_average_price_minor_units, Some(78900));
    assert!(response.yesterday_average_price_minor_units.is_none());
    assert!(!response.is_price_drop);
}

#[test]
fn response_exponents_follow_currencies() {
    let model = AvailabilityCheckRecord {
        price_currency: Some("JPY".to_string()),
        normalized_price_minor_units: Some(1200),
        normalized_currency: Some("KWD".to_string()),
        ..test_model()
    };
    let response = AvailabilityCheckResponse::from_model(model);
    assert_eq!(response.currency_exponent, Some(0));
    assert_eq!(response.normalized_currency_exponent, Some(3));
    assert_eq!(response.normalized_price_minor_units, Some(1200));
}

#[test]
fn test_with_cheapest_price_sets_fields() {
    let response = AvailabilityCheckResponse::from_model(test_model());
    let cheapest = CheapestPriceResult { price_minor_units: 3000, price_currency: "AUD".to_string() };

    let response = response.with_cheapest_price(Some(cheapest));

    assert_eq!(response.lowest_price_minor_units, Some(3000));
    assert_eq!(response.lowest_price_currency, Some("AUD".to_string()));
    assert_eq!(response.lowest_currency_exponent, Some(2));
}

#[test]
fn test_with_cheapest_price_none_leaves_fields_null() {
    let response = AvailabilityCheckResponse::from_model(test_model()).with_cheapest_price(None);

    assert!(response.lowest_price_minor_units.is_none());
    assert!(response.lowest_price_currency.is_none());
    assert!(response.lowest_currency_exponent.is_none());
}

#[test]
fn with_cheapest_price_in_yen_has_no_decimals() {
    let response = AvailabilityCheckResponse::from_model(test_model()).with_cheapest_price(Some(
        CheapestPriceResult { price_minor_units: 5000, price_currency: "JPY".to_string() },
    ));
    assert_eq!(response.lowest_price_minor_units, Some(5000));
    assert_eq!(response.lowest_price_currency, Some("JPY".to_string()));
    assert_eq!(response.lowest_currency_exponent, Some(0));
}
