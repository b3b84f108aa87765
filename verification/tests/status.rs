use product_stalker::availability::AvailabilityService;
use product_stalker::status::AvailabilityStatus;

#[test]
fn test_from_schema_org_in_stock() {
    assert_eq!(AvailabilityStatus::from_schema_org("http://schema.org/InStock"), AvailabilityStatus::InStock);
    assert_eq!(AvailabilityStatus::from_schema_org("https://schema.org/InStock"), AvailabilityStatus::InStock);
    assert_eq!(AvailabilityStatus::from_schema_org("InStock"), AvailabilityStatus::InStock);
}

#[test]
fn test_from_schema_org_out_of_stock() {
    assert_eq!(AvailabilityStatus::from_schema_org("http://schema.org/OutOfStock"), AvailabilityStatus::OutOfStock);
    assert_eq!(AvailabilityStatus::from_schema_org("https://schema.org/OutOfStock"), AvailabilityStatus::OutOfStock);
}

#[test]
fn test_from_schema_org_back_order() {
    assert_eq!(AvailabilityStatus::from_schema_org("http://schema.org/BackOrder"), AvailabilityStatus::BackOrder);
    assert_eq!(AvailabilityStatus::from_schema_org("http://schema.org/PreOrder"), AvailabilityStatus::BackOrder);
}

#[test]
fn test_from_schema_org_unknown() {
    assert_eq!(AvailabilityStatus::from_schema_org("something random"), AvailabilityStatus::Unknown);
    assert_eq!(AvailabilityStatus::from_schema_org(""), AvailabilityStatus::Unknown);
}

#[test]
fn test_display() {
    assert_eq!(AvailabilityStatus::InStock.to_display_string(), "in_stock");
    assert_eq!(AvailabilityStatus::OutOfStock.to_display_string(), "out_of_stock");
    assert_eq!(AvailabilityStatus::BackOrder.to_display_string(), "back_order");
    assert_eq!(AvailabilityStatus::Unknown.to_display_string(), "unknown");
}

#[test]
fn test_status_default_is_unknown() {
    assert_eq!(AvailabilityStatus::default(), AvailabilityStatus::Unknown);
}

#[test]
fn test_status_round_trip_through_store() {
    for s in [
        AvailabilityStatus::InStock,
        AvailabilityStatus::OutOfStock,
        AvailabilityStatus::BackOrder,
        AvailabilityStatus::Unknown,
    ] {
        assert_eq!(AvailabilityService::status_from_db(s.as_str()), s);
    }
    assert_eq!(AvailabilityService::status_from_db("IN_STOCK"), AvailabilityStatus::Unknown);
}

#[test]
fn test_in_stock_checked_before_out_of_stock() {
    assert_eq!(AvailabilityStatus::from_schema_org("INSTOCK or OutOfStock"), AvailabilityStatus::InStock);
}
