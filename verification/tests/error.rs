use product_stalker::error::{concat_str, AppError};

#[test]
fn test_not_found_error_display() {
    let err = AppError::NotFound("Product 123".to_string());
    assert_eq!(err.message(), "Not found: Product 123");
}

#[test]
fn test_validation_error_display() {
    let err = AppError::Validation("Name cannot be empty".to_string());
    assert_eq!(err.message(), "Validation error: Name cannot be empty");
}

#[test]
fn test_internal_error_display() {
    let err = AppError::Internal("Something went wrong".to_string());
    assert_eq!(err.message(), "Internal error: Something went wrong");
}

#[test]
fn database_error_display() {
    let err = AppError::Database("connection lost".to_string());
    assert_eq!(err.message(), "Database error: connection lost");
}

#[test]
fn detail_and_validation_constructor() {
    let err = AppError::validation("bad input");
    assert!(matches!(err, AppError::Validation(_)));
    assert_eq!(err.detail(), "bad input");
}

#[test]
fn concat_joins_in_order() {
    assert_eq!(concat_str("ab", "cd"), "abcd");
    assert_eq!(concat_str("", ""), "");
}
