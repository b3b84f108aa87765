//! The result of scraping one product page.

use vstd::prelude::*;
use crate::error::{err_view, AppError};
use crate::json::opt_view;
use crate::price::{price_view, PriceInfo};
use crate::status::AvailabilityStatus;

verus! {

/// Availability and price read from one product page.
#[derive(Debug, Clone)]
pub struct ScrapingResult {
    pub status: AvailabilityStatus,
    /// The availability text as the page gave it (or a tag saying where it came from).
    pub raw_availability: Option<String>,
    pub price: PriceInfo,
}

/// The view of a scraping result: status, raw availability, price.
pub open spec fn scraping_view(r: ScrapingResult) -> (
    AvailabilityStatus,
    Option<Seq<char>>,
    (Option<i64>, Option<Seq<char>>, Option<Seq<char>>),
) {
    (r.status, opt_view(r.raw_availability), price_view(r.price))
}

/// The view of a scraping outcome: the result, or the error's view.
pub open spec fn outcome_view(r: Result<ScrapingResult, AppError>) -> Result<
    (AvailabilityStatus, Option<Seq<char>>, (Option<i64>, Option<Seq<char>>, Option<Seq<char>>)),
    (int, Seq<char>),
> {
    match r {
        Ok(x) => Ok(scraping_view(x)),
        Err(e) => Err(err_view(e)),
    }
}

} // verus!
