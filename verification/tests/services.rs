use product_stalker::error::AppError;
use product_stalker::services::{
    extract_url_domain, is_blank, AddRetailerParams, CreateProductParams, ManualVerificationService,
    ProductRetailerService, ProductService, ReorderProductsParams, ReorderRetailersParams,
    UpdateProductParams,
};

// Product service

#[test]
fn test_validate_name_empty() {
    assert!(ProductService::validate_name("").is_err());
}

#[test]
fn test_validate_name_whitespace() {
    assert!(ProductService::validate_name("   ").is_err());
}

#[test]
fn test_validate_name_valid() {
    assert!(ProductService::validate_name("My Product").is_ok());
}

#[test]
fn product_service_test_reorder_validates_negative_sort_order() {
    let params = ReorderProductsParams {
        updates: vec![("550e8400-e29b-41d4-a716-446655440000".to_string(), -1)],
    };
    let result = ProductService::validate_reorder(&params);
    assert!(matches!(result, Err(AppError::Validation(_))));
}

#[test]
fn reorder_accepts_zero_and_positive_sort_orders() {
    let params = ReorderProductsParams {
        updates: vec![("a".to_string(), 0), ("b".to_string(), 7)],
    };
    assert!(ProductService::validate_reorder(&params).is_ok());
    let empty = ReorderProductsParams { updates: vec![] };
    assert!(ProductService::validate_reorder(&empty).is_ok());
}

#[test]
fn reorder_error_message_is_exact() {
    let params = ReorderProductsParams {
        updates: vec![("a".to_string(), 3), ("b".to_string(), -2)],
    };
    match ProductService::validate_reorder(&params) {
        Err(AppError::Validation(m)) => assert_eq!(m, "sort_order must be non-negative"),
        other => panic!("unexpected {:?}", other),
    }
}

#[test]
fn validate_name_error_message_is_exact() {
    match ProductService::validate_name("\t\n ") {
        Err(AppError::Validation(m)) => assert_eq!(m, "Name cannot be empty"),
        other => panic!("unexpected {:?}", other),
    }
}

#[test]
fn validate_create_and_update_check_the_name() {
    let bad = CreateProductParams { name: "  ".to_string(), description: None, notes: None };
    assert!(ProductService::validate_create(&bad).is_err());
    let good = CreateProductParams {
        name: "Widget".to_string(),
        description: Some("d".to_string()),
        notes: None,
    };
    assert!(ProductService::validate_create(&good).is_ok());

    let no_name = UpdateProductParams { name: None, description: None, notes: None };
    assert!(ProductService::validate_update(&no_name).is_ok());
    let blank_name = UpdateProductParams { name: Some("".to_string()), description: None, notes: None };
    assert!(ProductService::validate_update(&blank_name).is_err());
    let new_name = UpdateProductParams { name: Some("New".to_string()), description: None, notes: None };
    assert!(ProductService::validate_update(&new_name).is_ok());
}

#[test]
fn blank_detects_only_white_space() {
    assert!(is_blank(""));
    assert!(is_blank(" \t\r\n"));
    assert!(!is_blank(" a "));
}

// Product retailer service

#[test]
fn test_extract_domain_https() {
    let domain = ProductRetailerService::extract_domain("https://www.amazon.com/dp/B123").unwrap();
    assert_eq!(domain, "www.amazon.com");
}

#[test]
fn test_extract_domain_http() {
    let domain = ProductRetailerService::extract_domain("http://walmart.com/item/456").unwrap();
    assert_eq!(domain, "walmart.com");
}

#[test]
fn test_extract_domain_invalid() {
    let result = ProductRetailerService::extract_domain("not-a-url");
    assert!(result.is_err());
}

#[test]
fn extract_domain_without_host_is_refused() {
    match extract_url_domain("mailto:someone@example.com") {
        Err(AppError::Validation(m)) => assert_eq!(m, "URL has no host"),
        other => panic!("unexpected {:?}", other),
    }
}

#[test]
fn extract_domain_invalid_message_names_the_parse_error() {
    match extract_url_domain("not-a-url") {
        Err(AppError::Validation(m)) => assert!(m.starts_with("Invalid URL: ")),
        other => panic!("unexpected {:?}", other),
    }
}

#[test]
fn test_validate_url_empty() {
    assert!(ProductRetailerService::validate_url("").is_err());
}

#[test]
fn test_validate_url_valid() {
    assert!(ProductRetailerService::validate_url("https://example.com").is_ok());
}

#[test]
fn test_validate_url_invalid() {
    assert!(ProductRetailerService::validate_url("not-a-url").is_err());
}

#[test]
fn validate_url_messages() {
    match ProductRetailerService::validate_url("   ") {
        Err(AppError::Validation(m)) => assert_eq!(m, "URL cannot be empty"),
        other => panic!("unexpected {:?}", other),
    }
    match ProductRetailerService::validate_url("not-a-url") {
        Err(AppError::Validation(m)) => assert!(m.starts_with("Invalid URL format: ")),
        other => panic!("unexpected {:?}", other),
    }
}

#[test]
fn retailer_domain_validates_then_extracts() {
    let params = AddRetailerParams {
        product_id: "p".to_string(),
        url: "https://shop.example.com/item".to_string(),
        label: None,
    };
    assert_eq!(ProductRetailerService::retailer_domain(&params).unwrap(), "shop.example.com");
    let empty = AddRetailerParams { product_id: "p".to_string(), url: "".to_string(), label: None };
    assert!(ProductRetailerService::retailer_domain(&empty).is_err());
}

#[test]
fn retailer_reorder_validates_negative_sort_order() {
    let params = ReorderRetailersParams { updates: vec![("x".to_string(), -1)] };
    assert!(matches!(
        ProductRetailerService::validate_reorder(&params),
        Err(AppError::Validation(_))
    ));
    let ok = ReorderRetailersParams { updates: vec![("x".to_string(), 1)] };
    assert!(ProductRetailerService::validate_reorder(&ok).is_ok());
}

// Manual verification service

#[test]
fn test_extract_domain() {
    let domain = ManualVerificationService::extract_domain("https://example.com/path").unwrap();
    assert_eq!(domain, "example.com");
}

#[test]
fn test_extract_domain_with_subdomain() {
    let domain = ManualVerificationService::extract_domain("https://www.example.com/path").unwrap();
    assert_eq!(domain, "www.example.com");
}

#[test]
fn manual_verification_profile_dir() {
    let with_dir = ManualVerificationService::new(Some("/tmp/profile".to_string()));
    assert_eq!(with_dir.user_data_dir(), "/tmp/profile");
    let without = ManualVerificationService::new(None);
    assert_eq!(without.user_data_dir(), ".");
}
