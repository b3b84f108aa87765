//! Availability status of a product, as stored and reported.

use vstd::prelude::*;
use crate::text::{chars_of, contains_str, has_sub, to_lower, unicode_lower};

verus! {

/// Availability status for a product.
#[derive(Clone, Copy, Debug, PartialEq, Eq, Structural)]
pub enum AvailabilityStatus {
    InStock,
    OutOfStock,
    BackOrder,
    Unknown,
}

/// The status a lowercased Schema.org availability value stands for.
pub open spec fn schema_org_status(lower: Seq<char>) -> AvailabilityStatus {
    if has_sub(lower, "instock"@) {
        AvailabilityStatus::InStock
    } else if has_sub(lower, "outofstock"@) {
        AvailabilityStatus::OutOfStock
    } else if has_sub(lower, "backorder"@) || has_sub(lower, "preorder"@) {
        AvailabilityStatus::BackOrder
    } else {
        AvailabilityStatus::Unknown
    }
}

/// The database string of each status.
pub open spec fn status_str(s: AvailabilityStatus) -> Seq<char> {
    match s {
        AvailabilityStatus::InStock => "in_stock"@,
        AvailabilityStatus::OutOfStock => "out_of_stock"@,
        AvailabilityStatus::BackOrder => "back_order"@,
        AvailabilityStatus::Unknown => "unknown"@,
    }
}

impl AvailabilityStatus {
    /// Parse a Schema.org availability value into an AvailabilityStatus.
    ///
    /// The value is lowercased, then checked for "instock", "outofstock",
    /// and "backorder" or "preorder", in that order.
    pub fn from_schema_org(value: &str) -> (r: Self)
        ensures
            r == schema_org_status(unicode_lower(value@)),
    {
        let lowered = to_lower(value);
        let v = chars_of(lowered.as_str());
        let v = v.as_slice();
        if contains_str(v, "instock") {
            AvailabilityStatus::InStock
        } else if contains_str(v, "outofstock") {
            AvailabilityStatus::OutOfStock
        } else if contains_str(v, "backorder") || contains_str(v, "preorder") {
            AvailabilityStatus::BackOrder
        } else {
            AvailabilityStatus::Unknown
        }
    }

    /// Convert to the database string representation.
    pub fn as_str(&self) -> (r: &'static str)
        ensures
            r@ == status_str(*self),
    {
        match self {
            AvailabilityStatus::InStock => "in_stock",
            AvailabilityStatus::OutOfStock => "out_of_stock",
            AvailabilityStatus::BackOrder => "back_order",
            AvailabilityStatus::Unknown => "unknown",
        }
    }

    /// The database string as an owned `String` (what `Display` writes).
    pub fn to_display_string(&self) -> (r: String)
        ensures
            r@ == status_str(*self),
    {
        self.as_str().to_string()
    }
}

impl Default for AvailabilityStatus {
    /// The default status is `Unknown`.
    fn default() -> (r: Self)
        ensures
            r == AvailabilityStatus::Unknown,
    {
        AvailabilityStatus::Unknown
    }
}

} // verus!
