//! Availability checking decisions: stock transitions, price drops, the
//! processing of one check, and the counters and summary of a bulk check.

use vstd::prelude::*;
use crate::currency::{currency_exponent, exponent_spec};
use crate::error::{err_prefix, err_view, AppError};
use crate::json::opt_view;
use crate::price::{has_path_locale, url_path_currency};
use crate::scraping::ScrapingResult;
use crate::status::AvailabilityStatus;
use crate::text::{chars_eq, chars_of};

verus! {

/// Service layer for availability checking business logic.
pub struct AvailabilityService;

/// Result of comparing today's average price vs yesterday's average price.
#[derive(Debug, Clone, Copy)]
pub struct DailyPriceComparison {
    pub today_average_minor_units: Option<i64>,
    pub yesterday_average_minor_units: Option<i64>,
}

impl Default for DailyPriceComparison {
    /// No average for either day.
    fn default() -> (r: Self)
        ensures
            r.today_average_minor_units is None,
            r.yesterday_average_minor_units is None,
    {
        DailyPriceComparison { today_average_minor_units: None, yesterday_average_minor_units: None }
    }
}

/// Result of processing a single availability check.
#[derive(Debug, Clone)]
pub struct CheckProcessingResult {
    pub status: AvailabilityStatus,
    pub price_minor_units: Option<i64>,
    pub price_currency: Option<String>,
    pub error: Option<String>,
    pub is_back_in_stock: bool,
    pub is_price_drop: bool,
}

/// Context for checking a single product in a bulk operation.
#[derive(Debug, Clone, Copy)]
pub struct ProductCheckContext {
    pub previous_status: Option<AvailabilityStatus>,
}

/// Accumulated counters for bulk check results.
#[derive(Debug, Clone, Copy)]
pub struct BulkCheckCounters {
    pub successful: usize,
    pub failed: usize,
    pub back_in_stock_count: usize,
    pub price_drop_count: usize,
}

impl Default for BulkCheckCounters {
    /// All counters at zero.
    fn default() -> (r: Self)
        ensures
            r.successful == 0,
            r.failed == 0,
            r.back_in_stock_count == 0,
            r.price_drop_count == 0,
    {
        BulkCheckCounters { successful: 0, failed: 0, back_in_stock_count: 0, price_drop_count: 0 }
    }
}

/// The product facts a bulk result reads.
#[derive(Debug, Clone)]
pub struct ProductRecord {
    pub id: String,
    pub name: String,
    pub currency: Option<String>,
}

/// A stored availability check, as the processing step reads it.
#[derive(Debug, Clone)]
pub struct CheckRecord {
    /// The status as stored (`in_stock`, `out_of_stock`, `back_order`, `unknown`).
    pub status: String,
    pub error_message: Option<String>,
    pub price_minor_units: Option<i64>,
    pub price_currency: Option<String>,
}

/// Result of a single product availability check in a bulk operation.
#[derive(Debug, Clone)]
pub struct BulkCheckResult {
    pub product_id: String,
    pub product_name: String,
    pub product_retailer_id: Option<String>,
    pub url: Option<String>,
    pub status: AvailabilityStatus,
    pub previous_status: Option<AvailabilityStatus>,
    pub is_back_in_stock: bool,
    pub price_minor_units: Option<i64>,
    pub price_currency: Option<String>,
    pub currency_exponent: Option<u32>,
    pub today_average_price_minor_units: Option<i64>,
    pub yesterday_average_price_minor_units: Option<i64>,
    pub is_price_drop: bool,
    pub error: Option<String>,
}

/// Summary of a bulk check operation.
#[derive(Debug, Clone)]
pub struct BulkCheckSummary {
    pub total: usize,
    pub successful: usize,
    pub failed: usize,
    pub back_in_stock_count: usize,
    pub price_drop_count: usize,
    pub results: Vec<BulkCheckResult>,
}

/// Parameters for creating an availability check record.
#[derive(Debug, Clone)]
pub struct CreateCheckParams {
    pub status: AvailabilityStatus,
    pub raw_availability: Option<String>,
    pub error_message: Option<String>,
    pub price_minor_units: Option<i64>,
    pub price_currency: Option<String>,
    pub raw_price: Option<String>,
    pub product_retailer_id: Option<String>,
}

// ---------------------------------------------------------------------------
// Transitions and price drops
// ---------------------------------------------------------------------------

/// A product is back in stock when there was a previous check whose status
/// was not in stock and the new status is in stock.
pub open spec fn back_in_stock(previous: Option<AvailabilityStatus>, new_status: AvailabilityStatus) -> bool {
    match previous {
        Some(prev) => prev != AvailabilityStatus::InStock && new_status == AvailabilityStatus::InStock,
        None => false,
    }
}

/// Today's average is below yesterday's, both being known.
pub open spec fn price_drop(yesterday: Option<i64>, today: Option<i64>) -> bool {
    match (yesterday, today) {
        (Some(prev), Some(new)) => new < prev,
        _ => false,
    }
}

/// The status a stored status string names; anything unrecognised is unknown.
pub open spec fn db_status(s: Seq<char>) -> AvailabilityStatus {
    if s == "in_stock"@ {
        AvailabilityStatus::InStock
    } else if s == "out_of_stock"@ {
        AvailabilityStatus::OutOfStock
    } else if s == "back_order"@ {
        AvailabilityStatus::BackOrder
    } else {
        AvailabilityStatus::Unknown
    }
}

impl AvailabilityService {
    /// Determines if a product has transitioned back to being in stock.
    ///
    /// A product is considered "back in stock" only if there was a previous
    /// check, the previous status was not in stock, and the new status is in
    /// stock. The first check of a product never counts.
    pub fn is_back_in_stock(previous_status: &Option<AvailabilityStatus>, new_status: &AvailabilityStatus) -> (r: bool)
        ensures
            r == back_in_stock(*previous_status, *new_status),
    {
        match previous_status {
            Some(prev) => *prev != AvailabilityStatus::InStock && *new_status == AvailabilityStatus::InStock,
            None => false,
        }
    }

    /// Check if today's average price dropped compared to yesterday's; no
    /// drop when either average is missing.
    pub fn is_price_drop(yesterday_average: Option<i64>, today_average: Option<i64>) -> (r: bool)
        ensures
            r == price_drop(yesterday_average, today_average),
    {
        match (yesterday_average, today_average) {
            (Some(prev), Some(new)) => new < prev,
            _ => false,
        }
    }

    /// The status a stored status string names.
    pub fn status_from_db(s: &str) -> (r: AvailabilityStatus)
        ensures
            r == db_status(s@),
    {
        let c = chars_of(s);
        let c = c.as_slice();
        if crate::text::chars_eq_str(c, "in_stock") {
            AvailabilityStatus::InStock
        } else if crate::text::chars_eq_str(c, "out_of_stock") {
            AvailabilityStatus::OutOfStock
        } else if crate::text::chars_eq_str(c, "back_order") {
            AvailabilityStatus::BackOrder
        } else {
            AvailabilityStatus::Unknown
        }
    }
}

// ---------------------------------------------------------------------------
// Processing one check
// ---------------------------------------------------------------------------

/// The view of a processing result: status, price, currency, error,
/// back-in-stock flag, price-drop flag.
pub open spec fn processing_view(r: CheckProcessingResult) -> (AvailabilityStatus, Option<i64>, Option<Seq<char>>, Option<Seq<char>>, bool, bool) {
    (r.status, r.price_minor_units, opt_view(r.price_currency), opt_view(r.error), r.is_back_in_stock, r.is_price_drop)
}

/// The displayed message of an error.
pub open spec fn error_message(e: AppError) -> Seq<char> {
    err_prefix(err_view(e).0) + err_view(e).1
}

/// What processing a check outcome gives.
pub open spec fn processing_spec(
    check: Result<CheckRecord, AppError>,
    previous: Option<AvailabilityStatus>,
    daily: DailyPriceComparison,
) -> (AvailabilityStatus, Option<i64>, Option<Seq<char>>, Option<Seq<char>>, bool, bool) {
    match check {
        Ok(c) => if c.error_message is Some {
            (db_status(c.status@), c.price_minor_units, opt_view(c.price_currency), opt_view(c.error_message), false, false)
        } else {
            let status = db_status(c.status@);
            (
                status,
                c.price_minor_units,
                opt_view(c.price_currency),
                None,
                back_in_stock(previous, status),
                price_drop(daily.yesterday_average_minor_units, daily.today_average_minor_units),
            )
        },
        Err(e) => (AvailabilityStatus::Unknown, None, None, Some(error_message(e)), false, false),
    }
}

impl AvailabilityService {
    /// Process the result of an availability check into a structured result:
    /// a record with an error message keeps its data with no flags; a clean
    /// record gets the back-in-stock and price-drop flags; an infrastructure
    /// error gives an unknown status with the error's message.
    pub fn process_check_result(
        check_result: Result<CheckRecord, AppError>,
        previous_status: &Option<AvailabilityStatus>,
        daily_comparison: &DailyPriceComparison,
    ) -> (r: CheckProcessingResult)
        ensures
            processing_view(r) == processing_spec(check_result, *previous_status, *daily_comparison),
    {
        match check_result {
            Ok(check) => {
                let status = AvailabilityService::status_from_db(check.status.as_str());
                if check.error_message.is_some() {
                    CheckProcessingResult {
                        status,
                        price_minor_units: check.price_minor_units,
                        price_currency: check.price_currency,
                        error: check.error_message,
                        is_back_in_stock: false,
                        is_price_drop: false,
                    }
                } else {
                    let is_back_in_stock = AvailabilityService::is_back_in_stock(previous_status, &status);
                    let is_price_drop = AvailabilityService::is_price_drop(
                        daily_comparison.yesterday_average_minor_units,
                        daily_comparison.today_average_minor_units,
                    );
                    CheckProcessingResult {
                        status,
                        price_minor_units: check.price_minor_units,
                        price_currency: check.price_currency,
                        error: None,
                        is_back_in_stock,
                        is_price_drop,
                    }
                }
            },
            Err(e) => CheckProcessingResult {
                status: AvailabilityStatus::Unknown,
                price_minor_units: None,
                price_currency: None,
                error: Some(e.message()),
                is_back_in_stock: false,
                is_price_drop: false,
            },
        }
    }

    /// Build the parameters of a check record from a successful scrape.
    pub fn params_from_success(result: ScrapingResult) -> (r: CreateCheckParams)
        ensures
            r.status == result.status,
            opt_view(r.raw_availability) == opt_view(result.raw_availability),
            r.error_message is None,
            r.price_minor_units == result.price.price_minor_units,
            opt_view(r.price_currency) == opt_view(result.price.price_currency),
            opt_view(r.raw_price) == opt_view(result.price.raw_price),
            r.product_retailer_id is None,
    {
        CreateCheckParams {
            status: result.status,
            raw_availability: result.raw_availability,
            error_message: None,
            price_minor_units: result.price.price_minor_units,
            price_currency: result.price.price_currency,
            raw_price: result.price.raw_price,
            product_retailer_id: None,
        }
    }

    /// Build the parameters of a check record from a scraping error: an
    /// unknown status with the error's message and nothing else.
    pub fn params_from_error(error: &AppError) -> (r: CreateCheckParams)
        ensures
            r.status == AvailabilityStatus::Unknown,
            r.raw_availability is None,
            opt_view(r.error_message) == Some(error_message(*error)),
            r.price_minor_units is None,
            r.price_currency is None,
            r.raw_price is None,
            r.product_retailer_id is None,
    {
        CreateCheckParams {
            status: AvailabilityStatus::Unknown,
            raw_availability: None,
            error_message: Some(error.message()),
            price_minor_units: None,
            price_currency: None,
            raw_price: None,
            product_retailer_id: None,
        }
    }
}

// ---------------------------------------------------------------------------
// Bulk results
// ---------------------------------------------------------------------------

/// The currency a bulk result's exponent is taken from: the check's, else
/// the product's.
pub open spec fn result_currency(result: CheckProcessingResult, product: ProductRecord) -> Option<Seq<char>> {
    if opt_view(result.price_currency) is Some {
        opt_view(result.price_currency)
    } else {
        opt_view(product.currency)
    }
}

/// Whether `r` carries, for `product`, what processing gave and the daily
/// comparison: the retailer fields aside, every field of a bulk result.
pub open spec fn bulk_fields_from(
    r: BulkCheckResult,
    product: ProductRecord,
    result: CheckProcessingResult,
    context: ProductCheckContext,
    daily_comparison: DailyPriceComparison,
) -> bool {
    &&& r.product_id@ == product.id@
    &&& r.product_name@ == product.name@
    &&& r.status == result.status
    &&& r.previous_status == context.previous_status
    &&& r.is_back_in_stock == result.is_back_in_stock
    &&& r.price_minor_units == result.price_minor_units
    &&& opt_view(r.price_currency) == opt_view(result.price_currency)
    &&& r.currency_exponent == match result_currency(result, product) {
        Some(c) => Some(exponent_spec(c)),
        None => None::<u32>,
    }
    &&& r.today_average_price_minor_units == daily_comparison.today_average_minor_units
    &&& r.yesterday_average_price_minor_units == daily_comparison.yesterday_average_minor_units
    &&& r.is_price_drop == result.is_price_drop
    &&& opt_view(r.error) == opt_view(result.error)
}

/// Whether `r` is the error result for `product` with the message `msg`:
/// the product's id and name with the error, everything else at its default.
pub open spec fn error_result(r: BulkCheckResult, product: ProductRecord, msg: Seq<char>) -> bool {
    &&& r.product_id@ == product.id@
    &&& r.product_name@ == product.name@
    &&& opt_view(r.error) == Some(msg)
    &&& r.product_retailer_id is None
    &&& r.url is None
    &&& r.status == AvailabilityStatus::Unknown
    &&& r.previous_status is None
    &&& !r.is_back_in_stock
    &&& r.price_minor_units is None
    &&& r.price_currency is None
    &&& r.currency_exponent is None
    &&& r.today_average_price_minor_units is None
    &&& r.yesterday_average_price_minor_units is None
    &&& !r.is_price_drop
}

impl BulkCheckResult {
    /// Build a result from a processing result with daily comparison data.
    pub fn from_processing_result(
        product: &ProductRecord,
        result: &CheckProcessingResult,
        context: &ProductCheckContext,
        daily_comparison: &DailyPriceComparison,
    ) -> (r: BulkCheckResult)
        ensures
            bulk_fields_from(r, *product, *result, *context, *daily_comparison),
            r.product_retailer_id is None,
            r.url is None,
    {
        let currency_exponent = match &result.price_currency {
            Some(c) => Some(currency_exponent(c.as_str())),
            None => match &product.currency {
                Some(c) => Some(currency_exponent(c.as_str())),
                None => None,
            },
        };
        BulkCheckResult {
            product_id: product.id.clone(),
            product_name: product.name.clone(),
            product_retailer_id: None,
            url: None,
            status: result.status,
            previous_status: context.previous_status,
            is_back_in_stock: result.is_back_in_stock,
            price_minor_units: result.price_minor_units,
            price_currency: result.price_currency.clone(),
            currency_exponent,
            today_average_price_minor_units: daily_comparison.today_average_minor_units,
            yesterday_average_price_minor_units: daily_comparison.yesterday_average_minor_units,
            is_price_drop: result.is_price_drop,
            error: result.error.clone(),
        }
    }

    /// Set retailer info on the result.
    pub fn with_retailer(self, product_retailer_id: &str, url: &str) -> (r: BulkCheckResult)
        ensures
            opt_view(r.product_retailer_id) == Some(product_retailer_id@),
            opt_view(r.url) == Some(url@),
            r.product_id == self.product_id,
            r.product_name == self.product_name,
            r.status == self.status,
            r.previous_status == self.previous_status,
            r.is_back_in_stock == self.is_back_in_stock,
            r.price_minor_units == self.price_minor_units,
            r.price_currency == self.price_currency,
            r.currency_exponent == self.currency_exponent,
            r.today_average_price_minor_units == self.today_average_price_minor_units,
            r.yesterday_average_price_minor_units == self.yesterday_average_price_minor_units,
            r.is_price_drop == self.is_price_drop,
            r.error == self.error,
    {
        let mut r = self;
        r.product_retailer_id = Some(product_retailer_id.to_string());
        r.url = Some(url.to_string());
        r
    }

    /// Build an error result when context or infrastructure fails: the
    /// product's id and name with the error, everything else at its default.
    pub fn error_for_product(product: &ProductRecord, error_message: String) -> (r: BulkCheckResult)
        ensures
            error_result(r, *product, error_message@),
    {
        BulkCheckResult {
            product_id: product.id.clone(),
            product_name: product.name.clone(),
            product_retailer_id: None,
            url: None,
            status: AvailabilityStatus::Unknown,
            previous_status: None,
            is_back_in_stock: false,
            price_minor_units: None,
            price_currency: None,
            currency_exponent: None,
            today_average_price_minor_units: None,
            yesterday_average_price_minor_units: None,
            is_price_drop: false,
            error: Some(error_message),
        }
    }
}

/// The processing view of an infrastructure failure with message `msg`.
pub open spec fn failed_processing(msg: Seq<char>) -> (AvailabilityStatus, Option<i64>, Option<Seq<char>>, Option<Seq<char>>, bool, bool) {
    (AvailabilityStatus::Unknown, None, None, Some(msg), false, false)
}

impl AvailabilityService {
    /// Build the results for a product whose context could not be read: an
    /// unknown status with the error's message, and the product's error
    /// result.
    pub fn build_context_error_result(product: &ProductRecord, error: AppError) -> (r: (BulkCheckResult, CheckProcessingResult))
        ensures
            processing_view(r.1) == failed_processing(error_message(error)),
            error_result(r.0, *product, error_message(error)),
    {
        let error_message = error.message();
        let result = CheckProcessingResult {
            status: AvailabilityStatus::Unknown,
            price_minor_units: None,
            price_currency: None,
            error: Some(error_message.clone()),
            is_back_in_stock: false,
            is_price_drop: false,
        };
        let bulk_result = BulkCheckResult::error_for_product(product, error_message);
        (bulk_result, result)
    }

    /// Finish checking one product (or one of its retailer links, given as
    /// its id and URL) once its context was read and the check was made:
    /// when the daily comparison could not be read the product gets the
    /// context error result; else the check outcome is processed and the
    /// bulk result built from it.
    pub fn finish_single_check(
        product: &ProductRecord,
        context: &ProductCheckContext,
        check_result: Result<CheckRecord, AppError>,
        daily: Result<DailyPriceComparison, AppError>,
        retailer: Option<(&str, &str)>,
    ) -> (r: (BulkCheckResult, CheckProcessingResult))
        ensures
            match daily {
                Err(e) => processing_view(r.1) == failed_processing(error_message(e))
                    && error_result(r.0, *product, error_message(e)),
                Ok(d) => processing_view(r.1) == processing_spec(check_result, context.previous_status, d)
                    && bulk_fields_from(r.0, *product, r.1, *context, d)
                    && match retailer {
                        Some((id, url)) => opt_view(r.0.product_retailer_id) == Some(id@)
                            && opt_view(r.0.url) == Some(url@),
                        None => r.0.product_retailer_id is None && r.0.url is None,
                    },
            },
    {
        let daily_comparison = match daily {
            Ok(dc) => dc,
            Err(e) => return AvailabilityService::build_context_error_result(product, e),
        };
        let result = AvailabilityService::process_check_result(check_result, &context.previous_status, &daily_comparison);
        let bulk = BulkCheckResult::from_processing_result(product, &result, context, &daily_comparison);
        let bulk_result = match retailer {
            Some((id, url)) => bulk.with_retailer(id, url),
            None => bulk,
        };
        (bulk_result, result)
    }
}

impl AvailabilityService {
    /// Whether any retailer link, given as its previous status and its new
    /// status, came back in stock: a product with several retailers is back
    /// in stock when one of them is.
    pub fn any_back_in_stock(transitions: &[(Option<AvailabilityStatus>, AvailabilityStatus)]) -> (r: bool)
        ensures
            r == exists|i: int| 0 <= i < transitions@.len()
                && back_in_stock(#[trigger] transitions@[i].0, transitions@[i].1),
    {
        let mut i: usize = 0;
        while i < transitions.len()
            invariant
                i <= transitions@.len(),
                forall|k: int| 0 <= k < i ==> !back_in_stock(#[trigger] transitions@[k].0, transitions@[k].1),
            decreases transitions.len() - i,
        {
            let (previous, new_status) = transitions[i];
            if AvailabilityService::is_back_in_stock(&previous, &new_status) {
                return true;
            }
            i = i + 1;
        }
        false
    }
}

/// How a product is checked.
#[derive(Debug, Clone, Copy, PartialEq, Eq, Structural)]
pub enum CheckPlan {
    /// The product has no retailer links: check its own URL.
    Legacy,
    /// Check each of this many retailer links, one new check per link.
    PerRetailer(usize),
}

impl AvailabilityService {
    /// How a product with `n_retailers` retailer links is checked: one new
    /// check per link when it has any; otherwise its own URL, which it must
    /// have.
    pub fn retailer_plan(has_url: bool, n_retailers: usize) -> (r: Result<CheckPlan, AppError>)
        ensures
            n_retailers > 0 ==> r == Ok::<CheckPlan, AppError>(CheckPlan::PerRetailer(n_retailers)),
            n_retailers == 0 && has_url ==> r == Ok::<CheckPlan, AppError>(CheckPlan::Legacy),
            n_retailers == 0 && !has_url ==> (r matches Err(e) && err_view(e) == (2int, "Product has no URL set"@)),
    {
        if n_retailers > 0 {
            Ok(CheckPlan::PerRetailer(n_retailers))
        } else if has_url {
            Ok(CheckPlan::Legacy)
        } else {
            Err(AppError::Validation("Product has no URL set".to_string()))
        }
    }

    /// The rolling windows of the daily comparison, in seconds since the
    /// epoch: (now, 24 hours ago, 48 hours ago). "Today" is the last 24
    /// hours and "yesterday" the 24 hours before.
    pub fn daily_windows(now: i64) -> (r: (i64, i64, i64))
        requires
            now >= i64::MIN + 172800,
        ensures
            r == (now, (now - 86400) as i64, (now - 172800) as i64),
    {
        (now, now - 86400, now - 172800)
    }
}

// ---------------------------------------------------------------------------
// Counters and summaries
// ---------------------------------------------------------------------------

/// The counters after one more result: a failure counts only as failed; a
/// success counts as successful and, by its flags, as back in stock and as
/// a price drop.
pub open spec fn counted(c: BulkCheckCounters, r: CheckProcessingResult) -> (int, int, int, int) {
    if r.error is Some {
        (c.successful as int, c.failed + 1, c.back_in_stock_count as int, c.price_drop_count as int)
    } else {
        (
            c.successful + 1,
            c.failed as int,
            c.back_in_stock_count + if r.is_back_in_stock { 1int } else { 0 },
            c.price_drop_count + if r.is_price_drop { 1int } else { 0 },
        )
    }
}

/// The counters as a tuple.
pub open spec fn counters_view(c: BulkCheckCounters) -> (int, int, int, int) {
    (c.successful as int, c.failed as int, c.back_in_stock_count as int, c.price_drop_count as int)
}

/// The counters a list of processing results adds up to.
pub open spec fn tally(rs: Seq<CheckProcessingResult>) -> (int, int, int, int)
    decreases rs.len(),
{
    if rs.len() == 0 {
        (0, 0, 0, 0)
    } else {
        let (s, f, b, p) = tally(rs.drop_last());
        let r = rs.last();
        if r.error is Some {
            (s, f + 1, b, p)
        } else {
            (s + 1, f, b + if r.is_back_in_stock { 1int } else { 0 }, p + if r.is_price_drop { 1int } else { 0 })
        }
    }
}

/// The counters never overflow while they count fewer results than fit in
/// a `usize`.
pub open spec fn counters_fit(c: BulkCheckCounters) -> bool {
    c.successful + c.failed < usize::MAX
}

impl AvailabilityService {
    /// Update counters based on the check result.
    pub fn update_counters(counters: &mut BulkCheckCounters, result: &CheckProcessingResult)
        requires
            counters_fit(*old(counters)),
            old(counters).back_in_stock_count <= old(counters).successful,
            old(counters).price_drop_count <= old(counters).successful,
        ensures
            counters_view(*final(counters)) == counted(*old(counters), *result),
    {
        if result.error.is_some() {
            counters.failed = counters.failed + 1;
            return;
        }
        counters.successful = counters.successful + 1;
        if result.is_back_in_stock {
            counters.back_in_stock_count = counters.back_in_stock_count + 1;
        }
        if result.is_price_drop {
            counters.price_drop_count = counters.price_drop_count + 1;
        }
    }

    /// Build the final bulk check summary from counters and results.
    pub fn build_bulk_summary(total: usize, counters: BulkCheckCounters, results: Vec<BulkCheckResult>) -> (r: BulkCheckSummary)
        ensures
            r.total == total,
            r.successful == counters.successful,
            r.failed == counters.failed,
            r.back_in_stock_count == counters.back_in_stock_count,
            r.price_drop_count == counters.price_drop_count,
            r.results@ == results@,
    {
        BulkCheckSummary {
            total,
            successful: counters.successful,
            failed: counters.failed,
            back_in_stock_count: counters.back_in_stock_count,
            price_drop_count: counters.price_drop_count,
            results,
        }
    }

    /// Build the summary from collected results: the bulk results in order,
    /// and the counters the processing results add up to.
    pub fn build_summary_from_results(total: usize, results: Vec<(BulkCheckResult, CheckProcessingResult)>) -> (r: BulkCheckSummary)
        ensures
            r.total == total,
            (r.successful as int, r.failed as int, r.back_in_stock_count as int, r.price_drop_count as int)
                == tally(results@.map_values(|p: (BulkCheckResult, CheckProcessingResult)| p.1)),
            r.results@ == results@.map_values(|p: (BulkCheckResult, CheckProcessingResult)| p.0),
            r.successful + r.failed == results@.len(),
    {
        let ghost orig = results@;
        let ghost procs = orig.map_values(|p: (BulkCheckResult, CheckProcessingResult)| p.1);
        let ghost bulks = orig.map_values(|p: (BulkCheckResult, CheckProcessingResult)| p.0);
        let mut counters = BulkCheckCounters::default();
        let mut bulk_results: Vec<BulkCheckResult> = Vec::new();
        let mut rest = results;
        let n = rest.len();
        let ghost mut k: int = 0;
        while rest.len() > 0
            invariant
                0 <= k <= orig.len(),
                orig.len() == n,
                rest@ == orig.skip(k),
                procs == orig.map_values(|p: (BulkCheckResult, CheckProcessingResult)| p.1),
                bulks == orig.map_values(|p: (BulkCheckResult, CheckProcessingResult)| p.0),
                bulk_results@ == bulks.take(k),
                counters_view(counters) == tally(procs.take(k)),
            decreases rest.len(),
        {
            proof {
                lemma_tally_bounds(procs.take(k));
                assert(procs.take(k + 1).drop_last() =~= procs.take(k));
                assert(procs.take(k + 1).last() == orig[k].1);
                assert(bulks.take(k + 1) =~= bulks.take(k).push(orig[k].0));
            }
            let (b, p) = rest.remove(0);
            AvailabilityService::update_counters(&mut counters, &p);
            bulk_results.push(b);
            proof {
                assert(orig.skip(k + 1) =~= orig.skip(k).subrange(1, orig.skip(k).len() as int));
                k = k + 1;
            }
        }
        proof {
            assert(procs.take(k) =~= procs);
            assert(bulks.take(k) =~= bulks);
            lemma_tally_bounds(procs);
        }
        AvailabilityService::build_bulk_summary(total, counters, bulk_results)
    }
}

/// The counters a list adds up to: successes and failures make up the
/// list, and the flags count only successes.
pub proof fn lemma_tally_bounds(rs: Seq<CheckProcessingResult>)
    ensures
        tally(rs).0 + tally(rs).1 == rs.len(),
        0 <= tally(rs).2 <= tally(rs).0,
        0 <= tally(rs).3 <= tally(rs).0,
        0 <= tally(rs).1,
    decreases rs.len(),
{
    if rs.len() > 0 {
        lemma_tally_bounds(rs.drop_last());
    }
}


// ---------------------------------------------------------------------------
// Product currency
// ---------------------------------------------------------------------------

/// The currency to store on a product after a scrape, if any: a scraped
/// currency is stored when the product has none, and replaces a different
/// stored currency (ignoring ASCII case) only when the URL that was checked
/// (else the product's URL) carries a path locale.
pub open spec fn currency_update_spec(
    existing: Option<Seq<char>>,
    scraped: Option<Seq<char>>,
    locale_url: Option<Seq<char>>,
) -> Option<Seq<char>> {
    match scraped {
        None => None,
        Some(s) => match existing {
            None => Some(s),
            Some(e) => if !crate::text::eq_ignore_ascii_case_spec(e, s) && (locale_url matches Some(u)
                && url_path_currency(u) is Some) {
                Some(s)
            } else {
                None
            },
        },
    }
}

/// The view of an optional string slice.
pub open spec fn opt_str(o: Option<&str>) -> Option<Seq<char>> {
    match o {
        Some(s) => Some(s@),
        None => None,
    }
}

impl AvailabilityService {
    /// Decide whether a scrape sets or corrects a product's currency (see
    /// `currency_update_spec`); `None` leaves the stored currency as it is.
    pub fn currency_to_store(
        product_currency: Option<&str>,
        product_url: Option<&str>,
        scraped_currency: Option<&str>,
        check_url: Option<&str>,
    ) -> (r: Option<String>)
        ensures
            opt_view(r) == currency_update_spec(
                opt_str(product_currency),
                opt_str(scraped_currency),
                if check_url is Some { opt_str(check_url) } else { opt_str(product_url) },
            ),
    {
        let scraped = match scraped_currency {
            Some(s) => s,
            None => {
                return None;
            },
        };
        match product_currency {
            None => Some(scraped.to_string()),
            Some(existing) => {
                if crate::text::eq_ignore_ascii_case(existing, scraped) {
                    return None;
                }
                let url = match check_url {
                    Some(u) => Some(u),
                    None => product_url,
                };
                match url {
                    Some(u) => {
                        if has_path_locale(u) {
                            Some(scraped.to_string())
                        } else {
                            None
                        }
                    },
                    None => None,
                }
            },
        }
    }
}

} // verus!
