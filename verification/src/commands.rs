//! What the desktop commands hand to the frontend, and the decisions they
//! make: update information, the splash screen transition, availability
//! responses, merged settings, and the background checker's schedule.

use vstd::prelude::*;
use crate::availability::{price_drop, AvailabilityService, DailyPriceComparison};
use crate::currency::{currency_exponent, exponent_spec};
use crate::domain_settings::{DomainSettings, UpdateDomainSettingsParams};
use crate::json::opt_view;
use crate::services::AddRetailerParams;

verus! {

// ---------------------------------------------------------------------------
// Updates
// ---------------------------------------------------------------------------

/// A value that can be turned into a version string.
pub trait IntoVersion: Sized {
    /// The text the version will hold.
    spec fn version_text(&self) -> Seq<char>;

    /// The version string.
    fn into_version(self) -> (r: String)
        ensures
            r@ == self.version_text(),
    ;
}

impl<'a> IntoVersion for &'a str {
    open spec fn version_text(&self) -> Seq<char> {
        (**self)@
    }

    fn into_version(self) -> (r: String) {
        self.to_string()
    }
}

impl IntoVersion for String {
    open spec fn version_text(&self) -> Seq<char> {
        (*self)@
    }

    fn into_version(self) -> (r: String) {
        self
    }
}

/// Information about an available update.
#[derive(Debug, Clone, PartialEq, Eq)]
pub struct UpdateInfo {
    /// Whether an update is available
    pub available: bool,
    /// The version of the available update (None if no update)
    pub version: Option<String>,
    /// Release notes for the update (None if no update or no notes)
    pub body: Option<String>,
}

/// The view of update information: availability, version, notes.
pub open spec fn update_view(u: UpdateInfo) -> (bool, Option<Seq<char>>, Option<Seq<char>>) {
    (u.available, opt_view(u.version), opt_view(u.body))
}

/// The view of an optional string slice.
pub open spec fn opt_str_view(o: Option<&str>) -> Option<Seq<char>> {
    match o {
        Some(s) => Some(s@),
        None => None,
    }
}

impl UpdateInfo {
    /// Update information for an available update.
    pub fn available<V: IntoVersion>(version: V, body: Option<String>) -> (r: UpdateInfo)
        ensures
            update_view(r) == (true, Some(version.version_text()), opt_view(body)),
    {
        UpdateInfo { available: true, version: Some(version.into_version()), body }
    }

    /// Update information for no available update.
    pub fn none() -> (r: UpdateInfo)
        ensures
            update_view(r) == (false, None::<Seq<char>>, None::<Seq<char>>),
    {
        UpdateInfo { available: false, version: None, body: None }
    }

    /// Check if an update is available.
    pub fn is_available(&self) -> (r: bool)
        ensures
            r == self.available,
    {
        self.available
    }

    /// The version string, if any.
    pub fn version(&self) -> (r: Option<&str>)
        ensures
            opt_str_view(r) == opt_view(self.version),
    {
        match &self.version {
            Some(v) => Some(v.as_str()),
            None => None,
        }
    }

    /// The release notes, if any.
    pub fn body(&self) -> (r: Option<&str>)
        ensures
            opt_str_view(r) == opt_view(self.body),
    {
        match &self.body {
            Some(b) => Some(b.as_str()),
            None => None,
        }
    }
}

impl Default for UpdateInfo {
    /// No update available.
    fn default() -> (r: Self)
        ensures
            update_view(r) == (false, None::<Seq<char>>, None::<Seq<char>>),
    {
        UpdateInfo::none()
    }
}

// ---------------------------------------------------------------------------
// Splash screen
// ---------------------------------------------------------------------------

/// Result of a splashscreen close operation.
#[derive(Debug, Clone, Copy, PartialEq, Eq, Structural)]
pub struct SplashscreenResult {
    /// Whether the splash window was found and closed
    pub splash_closed: bool,
    /// Whether the main window was found and shown
    pub main_shown: bool,
}

impl SplashscreenResult {
    /// Create a new result.
    pub fn new(splash_closed: bool, main_shown: bool) -> (r: SplashscreenResult)
        ensures
            r == (SplashscreenResult { splash_closed, main_shown }),
    {
        SplashscreenResult { splash_closed, main_shown }
    }

    /// A result indicating full success.
    pub fn success() -> (r: SplashscreenResult)
        ensures
            r == (SplashscreenResult { splash_closed: true, main_shown: true }),
    {
        SplashscreenResult::new(true, true)
    }

    /// A result indicating no windows were found.
    pub fn no_windows() -> (r: SplashscreenResult)
        ensures
            r == (SplashscreenResult { splash_closed: false, main_shown: false }),
    {
        SplashscreenResult::new(false, false)
    }

    /// Check if the transition was fully successful.
    pub fn is_complete(&self) -> (r: bool)
        ensures
            r == (self.splash_closed && self.main_shown),
    {
        self.splash_closed && self.main_shown
    }

    /// Check if at least the main window was shown.
    pub fn main_visible(&self) -> (r: bool)
        ensures
            r == self.main_shown,
    {
        self.main_shown
    }
}

impl Default for SplashscreenResult {
    /// No windows found.
    fn default() -> (r: Self)
        ensures
            r == (SplashscreenResult { splash_closed: false, main_shown: false }),
    {
        SplashscreenResult::no_windows()
    }
}

// ---------------------------------------------------------------------------
// Availability responses
// ---------------------------------------------------------------------------

/// A stored availability check with its identifiers and time as text.
#[derive(Debug, Clone)]
pub struct AvailabilityCheckRecord {
    pub id: String,
    pub product_id: String,
    pub product_retailer_id: Option<String>,
    pub status: String,
    pub raw_availability: Option<String>,
    pub error_message: Option<String>,
    /// RFC 3339 time of the check.
    pub checked_at: String,
    pub price_minor_units: Option<i64>,
    pub price_currency: Option<String>,
    pub raw_price: Option<String>,
    pub normalized_price_minor_units: Option<i64>,
    pub normalized_currency: Option<String>,
}

/// The cheapest current price across a product's retailers.
#[derive(Debug, Clone)]
pub struct CheapestPriceResult {
    pub price_minor_units: i64,
    pub price_currency: String,
}

/// Response DTO for availability checks.
#[derive(Debug, Clone)]
pub struct AvailabilityCheckResponse {
    pub id: String,
    pub product_id: String,
    pub product_retailer_id: Option<String>,
    pub status: String,
    pub raw_availability: Option<String>,
    pub error_message: Option<String>,
    pub checked_at: String,
    pub price_minor_units: Option<i64>,
    pub price_currency: Option<String>,
    pub raw_price: Option<String>,
    /// Currency exponent (number of decimal places: 0 for JPY, 2 for USD, 3 for KWD)
    pub currency_exponent: Option<u32>,
    /// Today's average price in minor units for daily comparison
    pub today_average_price_minor_units: Option<i64>,
    /// Yesterday's average price in minor units for daily comparison
    pub yesterday_average_price_minor_units: Option<i64>,
    /// True if today's average price is lower than yesterday's average
    pub is_price_drop: bool,
    /// Lowest current price across all retailers (minor units)
    pub lowest_price_minor_units: Option<i64>,
    /// Currency of the lowest price
    pub lowest_price_currency: Option<String>,
    /// Currency exponent for the lowest price
    pub lowest_currency_exponent: Option<u32>,
    /// Price normalized to the user's preferred currency (minor units)
    pub normalized_price_minor_units: Option<i64>,
    /// Currency code of the normalized price
    pub normalized_currency: Option<String>,
    /// Currency exponent for the normalized price
    pub normalized_currency_exponent: Option<u32>,
}

/// The exponent of an optional currency code.
pub open spec fn opt_exponent(c: Option<Seq<char>>) -> Option<u32> {
    match c {
        Some(code) => Some(exponent_spec(code)),
        None => None,
    }
}

fn exponent_of(code: &Option<String>) -> (r: Option<u32>)
    ensures
        r == opt_exponent(opt_view(*code)),
{
    match code {
        Some(c) => Some(currency_exponent(c.as_str())),
        None => None,
    }
}

/// Whether `r` is the response to the stored check `model` with the daily
/// comparison `dc`: the check's fields, the exponents of its currencies, the
/// two averages and whether they make a price drop, and no lowest price yet.
pub open spec fn response_of(r: AvailabilityCheckResponse, model: AvailabilityCheckRecord, dc: DailyPriceComparison) -> bool {
    &&& r.id@ == model.id@
    &&& r.product_id@ == model.product_id@
    &&& opt_view(r.product_retailer_id) == opt_view(model.product_retailer_id)
    &&& r.status@ == model.status@
    &&& opt_view(r.raw_availability) == opt_view(model.raw_availability)
    &&& opt_view(r.error_message) == opt_view(model.error_message)
    &&& r.checked_at@ == model.checked_at@
    &&& r.price_minor_units == model.price_minor_units
    &&& opt_view(r.price_currency) == opt_view(model.price_currency)
    &&& opt_view(r.raw_price) == opt_view(model.raw_price)
    &&& r.currency_exponent == opt_exponent(opt_view(model.price_currency))
    &&& r.today_average_price_minor_units == dc.today_average_minor_units
    &&& r.yesterday_average_price_minor_units == dc.yesterday_average_minor_units
    &&& r.is_price_drop == price_drop(dc.yesterday_average_minor_units, dc.today_average_minor_units)
    &&& r.lowest_price_minor_units is None
    &&& r.lowest_price_currency is None
    &&& r.lowest_currency_exponent is None
    &&& r.normalized_price_minor_units == model.normalized_price_minor_units
    &&& opt_view(r.normalized_currency) == opt_view(model.normalized_currency)
    &&& r.normalized_currency_exponent == opt_exponent(opt_view(model.normalized_currency))
}

impl AvailabilityCheckResponse {
    /// Create a response from a stored check with daily price comparison
    /// data: the check's fields, the exponents of its currencies, the two
    /// averages and whether they make a price drop; no lowest price yet.
    pub fn from_model_with_daily_comparison(model: AvailabilityCheckRecord, daily_comparison: DailyPriceComparison) -> (r: AvailabilityCheckResponse)
        ensures
            response_of(r, model, daily_comparison),
    {
        let is_price_drop = AvailabilityService::is_price_drop(
            daily_comparison.yesterday_average_minor_units,
            daily_comparison.today_average_minor_units,
        );
        let currency_exponent = exponent_of(&model.price_currency);
        let normalized_currency_exponent = exponent_of(&model.normalized_currency);
        AvailabilityCheckResponse {
            id: model.id,
            product_id: model.product_id,
            product_retailer_id: model.product_retailer_id,
            status: model.status,
            raw_availability: model.raw_availability,
            error_message: model.error_message,
            checked_at: model.checked_at,
            price_minor_units: model.price_minor_units,
            price_currency: model.price_currency,
            raw_price: model.raw_price,
            currency_exponent,
            today_average_price_minor_units: daily_comparison.today_average_minor_units,
            yesterday_average_price_minor_units: daily_comparison.yesterday_average_minor_units,
            is_price_drop,
            lowest_price_minor_units: None,
            lowest_price_currency: None,
            lowest_currency_exponent: None,
            normalized_price_minor_units: model.normalized_price_minor_units,
            normalized_currency: model.normalized_currency,
            normalized_currency_exponent,
        }
    }

    /// A response from a stored check without daily comparison data.
    pub fn from_model(model: AvailabilityCheckRecord) -> (r: AvailabilityCheckResponse)
        ensures
            response_of(r, model, (DailyPriceComparison { today_average_minor_units: None, yesterday_average_minor_units: None })),
    {
        AvailabilityCheckResponse::from_model_with_daily_comparison(model, DailyPriceComparison::default())
    }

    /// Set the lowest price fields from a cheapest price query result;
    /// without one the response is unchanged.
    pub fn with_cheapest_price(self, cheapest: Option<CheapestPriceResult>) -> (r: AvailabilityCheckResponse)
        ensures
            match cheapest {
                Some(c) => r.lowest_price_minor_units == Some(c.price_minor_units)
                    && opt_view(r.lowest_price_currency) == Some(c.price_currency@)
                    && r.lowest_currency_exponent == Some(exponent_spec(c.price_currency@)),
                None => r == self,
            },
            r.id == self.id,
            r.product_id == self.product_id,
            r.product_retailer_id == self.product_retailer_id,
            r.status == self.status,
            r.raw_availability == self.raw_availability,
            r.error_message == self.error_message,
            r.checked_at == self.checked_at,
            r.price_minor_units == self.price_minor_units,
            r.price_currency == self.price_currency,
            r.raw_price == self.raw_price,
            r.currency_exponent == self.currency_exponent,
            r.today_average_price_minor_units == self.today_average_price_minor_units,
            r.yesterday_average_price_minor_units == self.yesterday_average_price_minor_units,
            r.is_price_drop == self.is_price_drop,
            r.normalized_price_minor_units == self.normalized_price_minor_units,
            r.normalized_currency == self.normalized_currency,
            r.normalized_currency_exponent == self.normalized_currency_exponent,
    {
        let mut r = self;
        match cheapest {
            Some(c) => {
                let exponent = currency_exponent(c.price_currency.as_str());
                r.lowest_price_minor_units = Some(c.price_minor_units);
                r.lowest_price_currency = Some(c.price_currency);
                r.lowest_currency_exponent = Some(exponent);
            },
            None => {},
        }
        r
    }
}

// ---------------------------------------------------------------------------
// Settings
// ---------------------------------------------------------------------------

/// The application-wide settings the frontend shows beside the domain
/// settings; `updated_at` is RFC 3339 text.
#[derive(Debug, Clone)]
pub struct CoreSettings {
    pub theme: String,
    pub show_in_tray: bool,
    pub launch_at_login: bool,
    pub enable_logging: bool,
    pub log_level: String,
    pub enable_notifications: bool,
    pub sidebar_expanded: bool,
    pub color_palette: String,
    pub display_timezone: String,
    pub date_format: String,
    pub updated_at: String,
}

/// Response DTO for settings: core and domain settings in one flat record.
#[derive(Debug, Clone)]
pub struct SettingsResponse {
    pub theme: String,
    pub show_in_tray: bool,
    pub launch_at_login: bool,
    pub enable_logging: bool,
    pub log_level: String,
    pub enable_notifications: bool,
    pub sidebar_expanded: bool,
    pub background_check_enabled: bool,
    pub background_check_interval_minutes: i32,
    pub enable_headless_browser: bool,
    pub color_palette: String,
    pub display_timezone: String,
    pub date_format: String,
    pub updated_at: String,
}

impl SettingsResponse {
    /// Merge core and domain settings into one response.
    pub fn from_merged(settings: CoreSettings, domain: DomainSettings) -> (r: SettingsResponse)
        ensures
            r.theme@ == settings.theme@,
            r.show_in_tray == settings.show_in_tray,
            r.launch_at_login == settings.launch_at_login,
            r.enable_logging == settings.enable_logging,
            r.log_level@ == settings.log_level@,
            r.enable_notifications == settings.enable_notifications,
            r.sidebar_expanded == settings.sidebar_expanded,
            r.background_check_enabled == domain.background_check_enabled,
            r.background_check_interval_minutes == domain.background_check_interval_minutes,
            r.enable_headless_browser == domain.enable_headless_browser,
            r.color_palette@ == settings.color_palette@,
            r.display_timezone@ == settings.display_timezone@,
            r.date_format@ == settings.date_format@,
            r.updated_at@ == settings.updated_at@,
    {
        SettingsResponse {
            theme: settings.theme,
            show_in_tray: settings.show_in_tray,
            launch_at_login: settings.launch_at_login,
            enable_logging: settings.enable_logging,
            log_level: settings.log_level,
            enable_notifications: settings.enable_notifications,
            sidebar_expanded: settings.sidebar_expanded,
            background_check_enabled: domain.background_check_enabled,
            background_check_interval_minutes: domain.background_check_interval_minutes,
            enable_headless_browser: domain.enable_headless_browser,
            color_palette: settings.color_palette,
            display_timezone: settings.display_timezone,
            date_format: settings.date_format,
            updated_at: settings.updated_at,
        }
    }
}

/// Combined update params from the frontend: every settings field, optional.
#[derive(Debug, Clone)]
pub struct CombinedUpdateParams {
    pub theme: Option<String>,
    pub show_in_tray: Option<bool>,
    pub launch_at_login: Option<bool>,
    pub enable_logging: Option<bool>,
    pub log_level: Option<String>,
    pub enable_notifications: Option<bool>,
    pub sidebar_expanded: Option<bool>,
    pub background_check_enabled: Option<bool>,
    pub background_check_interval_minutes: Option<i32>,
    pub enable_headless_browser: Option<bool>,
    pub color_palette: Option<String>,
    pub display_timezone: Option<String>,
    pub date_format: Option<String>,
}

/// A partial update of the core settings: every field optional.
#[derive(Debug, Clone)]
pub struct UpdateSettingsParams {
    pub theme: Option<String>,
    pub show_in_tray: Option<bool>,
    pub launch_at_login: Option<bool>,
    pub enable_logging: Option<bool>,
    pub log_level: Option<String>,
    pub enable_notifications: Option<bool>,
    pub sidebar_expanded: Option<bool>,
    pub color_palette: Option<String>,
    pub display_timezone: Option<String>,
    pub date_format: Option<String>,
}

/// A text setting after an update: the new value when one is given.
pub open spec fn merged_text(old: Seq<char>, new: Option<String>) -> Seq<char> {
    match new {
        Some(v) => v@,
        None => old,
    }
}

/// A flag after an update: the new value when one is given.
pub open spec fn merged_flag(old: bool, new: Option<bool>) -> bool {
    match new {
        Some(v) => v,
        None => old,
    }
}

fn merge_text(old: String, new: Option<String>) -> (r: String)
    ensures
        r@ == merged_text(old@, new),
{
    match new {
        Some(v) => v,
        None => old,
    }
}

fn merge_flag(old: bool, new: Option<bool>) -> (r: bool)
    ensures
        r == merged_flag(old, new),
{
    match new {
        Some(v) => v,
        None => old,
    }
}

impl CoreSettings {
    /// The settings after a partial update made at `updated_at`: each given
    /// field takes its new value, the others keep theirs.
    pub fn apply_update(self, params: UpdateSettingsParams, updated_at: String) -> (r: CoreSettings)
        ensures
            r.theme@ == merged_text(self.theme@, params.theme),
            r.show_in_tray == merged_flag(self.show_in_tray, params.show_in_tray),
            r.launch_at_login == merged_flag(self.launch_at_login, params.launch_at_login),
            r.enable_logging == merged_flag(self.enable_logging, params.enable_logging),
            r.log_level@ == merged_text(self.log_level@, params.log_level),
            r.enable_notifications == merged_flag(self.enable_notifications, params.enable_notifications),
            r.sidebar_expanded == merged_flag(self.sidebar_expanded, params.sidebar_expanded),
            r.color_palette@ == merged_text(self.color_palette@, params.color_palette),
            r.display_timezone@ == merged_text(self.display_timezone@, params.display_timezone),
            r.date_format@ == merged_text(self.date_format@, params.date_format),
            r.updated_at@ == updated_at@,
    {
        CoreSettings {
            theme: merge_text(self.theme, params.theme),
            show_in_tray: merge_flag(self.show_in_tray, params.show_in_tray),
            launch_at_login: merge_flag(self.launch_at_login, params.launch_at_login),
            enable_logging: merge_flag(self.enable_logging, params.enable_logging),
            log_level: merge_text(self.log_level, params.log_level),
            enable_notifications: merge_flag(self.enable_notifications, params.enable_notifications),
            sidebar_expanded: merge_flag(self.sidebar_expanded, params.sidebar_expanded),
            color_palette: merge_text(self.color_palette, params.color_palette),
            display_timezone: merge_text(self.display_timezone, params.display_timezone),
            date_format: merge_text(self.date_format, params.date_format),
            updated_at,
        }
    }
}

impl CombinedUpdateParams {
    /// The core part of a combined update: every field that is not a
    /// domain setting.
    pub fn core_params(&self) -> (r: UpdateSettingsParams)
        ensures
            opt_view(r.theme) == opt_view(self.theme),
            r.show_in_tray == self.show_in_tray,
            r.launch_at_login == self.launch_at_login,
            r.enable_logging == self.enable_logging,
            opt_view(r.log_level) == opt_view(self.log_level),
            r.enable_notifications == self.enable_notifications,
            r.sidebar_expanded == self.sidebar_expanded,
            opt_view(r.color_palette) == opt_view(self.color_palette),
            opt_view(r.display_timezone) == opt_view(self.display_timezone),
            opt_view(r.date_format) == opt_view(self.date_format),
    {
        UpdateSettingsParams {
            theme: self.theme.clone(),
            show_in_tray: self.show_in_tray,
            launch_at_login: self.launch_at_login,
            enable_logging: self.enable_logging,
            log_level: self.log_level.clone(),
            enable_notifications: self.enable_notifications,
            sidebar_expanded: self.sidebar_expanded,
            color_palette: self.color_palette.clone(),
            display_timezone: self.display_timezone.clone(),
            date_format: self.date_format.clone(),
        }
    }

    /// The domain part of a combined update: background checking and the
    /// headless browser; the session and verification settings are left
    /// alone.
    pub fn domain_params(&self) -> (r: UpdateDomainSettingsParams)
        ensures
            r.background_check_enabled == self.background_check_enabled,
            r.background_check_interval_minutes == self.background_check_interval_minutes,
            r.enable_headless_browser == self.enable_headless_browser,
            r.allow_manual_verification is None,
            r.session_cache_duration_days is None,
    {
        UpdateDomainSettingsParams {
            background_check_enabled: self.background_check_enabled,
            background_check_interval_minutes: self.background_check_interval_minutes,
            enable_headless_browser: self.enable_headless_browser,
            allow_manual_verification: None,
            session_cache_duration_days: None,
        }
    }
}

// ---------------------------------------------------------------------------
// Products, retailer links and notifications
// ---------------------------------------------------------------------------

/// Input for creating a product.
#[derive(Debug, Clone)]
pub struct CreateProductInput {
    pub name: String,
    pub url: String,
    pub description: Option<String>,
    pub notes: Option<String>,
}

/// Input for updating a product: every field optional.
#[derive(Debug, Clone)]
pub struct UpdateProductInput {
    pub name: Option<String>,
    pub url: Option<String>,
    pub description: Option<String>,
    pub notes: Option<String>,
}

/// Response DTO for products; times are RFC 3339 text.
#[derive(Debug, Clone)]
pub struct ProductResponse {
    pub id: String,
    pub name: String,
    pub url: String,
    pub description: Option<String>,
    pub notes: Option<String>,
    pub created_at: String,
    pub updated_at: String,
}

/// Input for adding a retailer to a product.
#[derive(Debug, Clone)]
pub struct AddRetailerInput {
    pub product_id: String,
    pub url: String,
    pub label: Option<String>,
}

impl AddRetailerInput {
    /// The service parameters of the input: the same product, URL and label.
    pub fn params(self) -> (r: AddRetailerParams)
        ensures
            r.product_id@ == self.product_id@,
            r.url@ == self.url@,
            opt_view(r.label) == opt_view(self.label),
    {
        AddRetailerParams { product_id: self.product_id, url: self.url, label: self.label }
    }
}

/// Response DTO for product-retailer links; the time is RFC 3339 text.
#[derive(Debug, Clone)]
pub struct ProductRetailerResponse {
    pub id: String,
    pub product_id: String,
    pub retailer_id: String,
    pub url: String,
    pub label: Option<String>,
    pub created_at: String,
}

/// Input for sending a notification.
#[derive(Debug, Clone)]
pub struct SendNotificationInput {
    pub title: String,
    pub body: String,
}

// ---------------------------------------------------------------------------
// Background checker
// ---------------------------------------------------------------------------

/// Delay in seconds before retrying after a settings fetch error.
pub const ERROR_RETRY_DELAY_SECS: u64 = 60;

/// Polling interval in seconds when background checking is disabled.
pub const DISABLED_POLL_INTERVAL_SECS: u64 = 60;

/// What the background checker does next.
#[derive(Debug, Clone, Copy, PartialEq, Eq, Structural)]
pub enum CheckerStep {
    /// Settings could not be read: wait, then read them again.
    RetryAfter(u64),
    /// Checking is disabled: wait, then read the settings again.
    PollAfter(u64),
    /// Check all products, then wait this many seconds.
    CheckThenSleep(u64),
}

/// The background checker's next step from what reading the settings gave:
/// `None` for a failed read, else whether checking is enabled and the
/// interval in minutes.
pub fn next_checker_step(settings: Option<(bool, i32)>) -> (r: CheckerStep)
    requires
        settings matches Some((true, minutes)) ==> minutes >= 0,
    ensures
        match settings {
            None => r == CheckerStep::RetryAfter(60),
            Some((false, _)) => r == CheckerStep::PollAfter(60),
            Some((true, m)) => r == CheckerStep::CheckThenSleep((m * 60) as u64),
        },
{
    match settings {
        None => CheckerStep::RetryAfter(ERROR_RETRY_DELAY_SECS),
        Some((enabled, minutes)) => {
            if !enabled {
                CheckerStep::PollAfter(DISABLED_POLL_INTERVAL_SECS)
            } else {
                CheckerStep::CheckThenSleep((minutes as u64) * 60)
            }
        },
    }
}

} // verus!
