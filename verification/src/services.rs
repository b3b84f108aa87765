//! Validation rules of the product, product-retailer and manual
//! verification services.

use vstd::prelude::*;
use crate::error::{concat_str, err_view, AppError};
use crate::json::opt_view;
use crate::text::{chars_of, is_whitespace, white_space};
use crate::url::{parse_url, url_parse};

verus! {

/// Whether a text is empty once white space is trimmed from both ends.
pub open spec fn blank(s: Seq<char>) -> bool {
    forall|i: int| 0 <= i < s.len() ==> white_space(#[trigger] s[i])
}

/// Whether `s.trim()` is empty.
pub fn is_blank(s: &str) -> (r: bool)
    ensures
        r == blank(s@),
{
    let cs = chars_of(s);
    let mut i: usize = 0;
    while i < cs.len()
        invariant
            cs@ == s@,
            i <= cs@.len(),
            forall|k: int| 0 <= k < i ==> white_space(#[trigger] s@[k]),
        decreases cs.len() - i,
    {
        if !is_whitespace(cs[i]) {
            return false;
        }
        i = i + 1;
    }
    true
}

/// Whether every sort order in a reorder request is non-negative.
pub open spec fn sort_orders_valid(updates: Seq<(String, i32)>) -> bool {
    forall|i: int| 0 <= i < updates.len() ==> (#[trigger] updates[i]).1 >= 0
}

/// The view of a unit result.
pub open spec fn unit_view(r: Result<(), AppError>) -> Option<(int, Seq<char>)> {
    match r {
        Ok(_) => None,
        Err(e) => Some(err_view(e)),
    }
}

/// Check the sort orders of a reorder request.
pub fn validate_sort_orders(updates: &[(String, i32)]) -> (r: Result<(), AppError>)
    ensures
        sort_orders_valid(updates@) ==> r is Ok,
        !sort_orders_valid(updates@) ==> unit_view(r) == Some((2int, "sort_order must be non-negative"@)),
{
    let mut i: usize = 0;
    while i < updates.len()
        invariant
            i <= updates@.len(),
            forall|k: int| 0 <= k < i ==> (#[trigger] updates@[k]).1 >= 0,
        decreases updates.len() - i,
    {
        if updates[i].1 < 0 {
            return Err(AppError::Validation("sort_order must be non-negative".to_string()));
        }
        i = i + 1;
    }
    Ok(())
}

/// Parameters for creating a new product.
#[derive(Debug, Clone)]
pub struct CreateProductParams {
    pub name: String,
    pub description: Option<String>,
    pub notes: Option<String>,
}

/// Parameters for updating an existing product (all fields optional for partial updates).
#[derive(Debug, Clone)]
pub struct UpdateProductParams {
    pub name: Option<String>,
    pub description: Option<String>,
    pub notes: Option<String>,
}

/// Parameters for reordering products: (product id, new sort order).
#[derive(Debug, Clone)]
pub struct ReorderProductsParams {
    pub updates: Vec<(String, i32)>,
}

/// Service layer for product business logic.
pub struct ProductService;

impl ProductService {
    /// A product name must hold something besides white space.
    pub fn validate_name(name: &str) -> (r: Result<(), AppError>)
        ensures
            !blank(name@) ==> r is Ok,
            blank(name@) ==> unit_view(r) == Some((2int, "Name cannot be empty"@)),
    {
        if is_blank(name) {
            return Err(AppError::Validation("Name cannot be empty".to_string()));
        }
        Ok(())
    }

    /// Validate the parameters of a new product.
    pub fn validate_create(params: &CreateProductParams) -> (r: Result<(), AppError>)
        ensures
            !blank(params.name@) ==> r is Ok,
            blank(params.name@) ==> unit_view(r) == Some((2int, "Name cannot be empty"@)),
    {
        ProductService::validate_name(params.name.as_str())
    }

    /// Validate the parameters of an update: a given name must not be blank.
    pub fn validate_update(params: &UpdateProductParams) -> (r: Result<(), AppError>)
        ensures
            (params.name matches Some(n) && blank(n@)) ==> unit_view(r) == Some((2int, "Name cannot be empty"@)),
            !(params.name matches Some(n) && blank(n@)) ==> r is Ok,
    {
        match &params.name {
            Some(n) => ProductService::validate_name(n.as_str()),
            None => Ok(()),
        }
    }

    /// Validate a reorder request: every sort order must be non-negative.
    pub fn validate_reorder(params: &ReorderProductsParams) -> (r: Result<(), AppError>)
        ensures
            sort_orders_valid(params.updates@) ==> r is Ok,
            !sort_orders_valid(params.updates@) ==> unit_view(r) == Some((2int, "sort_order must be non-negative"@)),
    {
        validate_sort_orders(params.updates.as_slice())
    }
}

/// The host a URL names, or the error for an unparsable URL or one without
/// a host.
pub open spec fn domain_spec(url: Seq<char>) -> Result<Seq<char>, (int, Seq<char>)> {
    match url_parse(url) {
        Err(e) => Err((2int, "Invalid URL: "@ + e)),
        Ok(u) => match u.host {
            Some(h) => Ok(h),
            None => Err((2int, "URL has no host"@)),
        },
    }
}

/// The view of a text result.
pub open spec fn text_view(r: Result<String, AppError>) -> Result<Seq<char>, (int, Seq<char>)> {
    match r {
        Ok(s) => Ok(s@),
        Err(e) => Err(err_view(e)),
    }
}

/// Extract the host of a URL.
pub fn extract_url_domain(url: &str) -> (r: Result<String, AppError>)
    ensures
        text_view(r) == domain_spec(url@),
{
    match parse_url(url) {
        Ok(parsed) => match parsed.host {
            Some(h) => Ok(h),
            None => Err(AppError::Validation("URL has no host".to_string())),
        },
        Err(e) => Err(AppError::Validation(concat_str("Invalid URL: ", e.as_str()))),
    }
}

/// Parameters for adding a retailer to a product.
#[derive(Debug, Clone)]
pub struct AddRetailerParams {
    pub product_id: String,
    pub url: String,
    pub label: Option<String>,
}

/// Parameters for reordering retailers: (link id, new sort order).
#[derive(Debug, Clone)]
pub struct ReorderRetailersParams {
    pub updates: Vec<(String, i32)>,
}

/// Service layer for product-retailer business logic.
pub struct ProductRetailerService;

/// What validating a retailer URL gives: blank URLs and URLs that do not
/// parse are refused.
pub open spec fn url_check(url: Seq<char>) -> Option<(int, Seq<char>)> {
    if blank(url) {
        Some((2int, "URL cannot be empty"@))
    } else {
        match url_parse(url) {
            Err(e) => Some((2int, "Invalid URL format: "@ + e)),
            Ok(_) => None,
        }
    }
}

impl ProductRetailerService {
    /// Extract the domain (host) from a URL.
    pub fn extract_domain(url_str: &str) -> (r: Result<String, AppError>)
        ensures
            text_view(r) == domain_spec(url_str@),
    {
        extract_url_domain(url_str)
    }

    /// Validate a retailer URL: not blank, and parsable.
    pub fn validate_url(url: &str) -> (r: Result<(), AppError>)
        ensures
            unit_view(r) == url_check(url@),
    {
        if is_blank(url) {
            return Err(AppError::Validation("URL cannot be empty".to_string()));
        }
        match parse_url(url) {
            Ok(_) => Ok(()),
            Err(e) => Err(AppError::Validation(concat_str("Invalid URL format: ", e.as_str()))),
        }
    }

    /// The domain a new retailer link is filed under: the URL is validated,
    /// then its host taken.
    pub fn retailer_domain(params: &AddRetailerParams) -> (r: Result<String, AppError>)
        ensures
            url_check(params.url@) is Some ==> (r matches Err(e) && Some(err_view(e)) == url_check(params.url@)),
            url_check(params.url@) is None ==> text_view(r) == domain_spec(params.url@),
    {
        let checked = ProductRetailerService::validate_url(params.url.as_str());
        match checked {
            Err(e) => Err(e),
            Ok(_) => ProductRetailerService::extract_domain(params.url.as_str()),
        }
    }

    /// Validate a reorder request: every sort order must be non-negative.
    pub fn validate_reorder(params: &ReorderRetailersParams) -> (r: Result<(), AppError>)
        ensures
            sort_orders_valid(params.updates@) ==> r is Ok,
            !sort_orders_valid(params.updates@) ==> unit_view(r) == Some((2int, "sort_order must be non-negative"@)),
    {
        validate_sort_orders(params.updates.as_slice())
    }
}

/// Service for manual CAPTCHA verification with a visible browser.
#[derive(Debug, Clone)]
pub struct ManualVerificationService {
    user_data_dir: String,
}

impl ManualVerificationService {
    /// The browser profile directory this service uses.
    pub closed spec fn dir(self) -> Seq<char> {
        self.user_data_dir@
    }

    /// A service using the headless browser's profile directory when it is
    /// known, else the current directory.
    pub fn new(profile_dir: Option<String>) -> (r: Self)
        ensures
            r.dir() == match opt_view(profile_dir) {
                Some(d) => d,
                None => "."@,
            },
    {
        let user_data_dir = match profile_dir {
            Some(d) => d,
            None => ".".to_string(),
        };
        ManualVerificationService { user_data_dir }
    }

    /// The browser profile directory.
    pub fn user_data_dir(&self) -> (r: &str)
        ensures
            r@ == self.dir(),
    {
        self.user_data_dir.as_str()
    }

    /// Extract the domain (host) from a URL.
    pub fn extract_domain(url: &str) -> (r: Result<String, AppError>)
        ensures
            text_view(r) == domain_spec(url@),
    {
        extract_url_domain(url)
    }
}

/// Seconds between two looks at the page while the user solves a CAPTCHA.
pub const VERIFICATION_POLL_SECS: u64 = 5;

/// Looks at the page before manual verification gives up (5 minutes).
pub const VERIFICATION_MAX_POLLS: u32 = 60;

/// What manual verification does after a look at the page.
#[derive(Debug, Clone)]
pub enum VerificationStep {
    /// The challenge is gone: capture the session and the page.
    Verified,
    /// Wait `VERIFICATION_POLL_SECS` and look again.
    PollAgain,
    /// Give up with this error.
    TimedOut(AppError),
}

/// The view of a verification step: 0 verified, 1 poll again, 2 timed out
/// with the error's view.
pub open spec fn verification_view(s: VerificationStep) -> (int, (int, Seq<char>)) {
    match s {
        VerificationStep::Verified => (0, (0, Seq::empty())),
        VerificationStep::PollAgain => (1, (0, Seq::empty())),
        VerificationStep::TimedOut(e) => (2, err_view(e)),
    }
}

impl ManualVerificationService {
    /// The step after the `polls_done`-th look at the page. `still_challenged`
    /// is whether the page still shows a challenge, `None` when its content
    /// could not be read. A page read without a challenge is verified; after
    /// `VERIFICATION_MAX_POLLS` looks without one, verification times out.
    pub fn after_poll(polls_done: u32, still_challenged: Option<bool>) -> (r: VerificationStep)
        ensures
            still_challenged == Some(false) ==> verification_view(r) == (0int, (0int, Seq::<char>::empty())),
            still_challenged != Some(false) && polls_done < 60 ==> verification_view(r) == (1int, (0int, Seq::<char>::empty())),
            still_challenged != Some(false) && polls_done >= 60 ==> verification_view(r)
                == (2int, (4int, "Manual verification timed out. Please try again."@)),
    {
        if still_challenged == Some(false) {
            VerificationStep::Verified
        } else if polls_done < VERIFICATION_MAX_POLLS {
            VerificationStep::PollAgain
        } else {
            VerificationStep::TimedOut(AppError::External("Manual verification timed out. Please try again.".to_string()))
        }
    }
}

} // verus!
