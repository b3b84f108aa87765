//! Domain-specific settings: availability checking, headless browser and
//! verification sessions. Stored values are read and written by the
//! caller; this module holds the defaults, the validation of updates and
//! the clamping of stored values.

use vstd::prelude::*;
use crate::error::{err_view, AppError};

verus! {

/// Setting key: whether background checking runs.
pub const BACKGROUND_CHECK_ENABLED_KEY: &'static str = "background_check_enabled";
/// Setting key: minutes between background checks.
pub const BACKGROUND_CHECK_INTERVAL_MINUTES_KEY: &'static str = "background_check_interval_minutes";
/// Setting key: whether the headless browser fallback is used.
pub const ENABLE_HEADLESS_BROWSER_KEY: &'static str = "enable_headless_browser";
/// Setting key: whether manual verification is allowed.
pub const ALLOW_MANUAL_VERIFICATION_KEY: &'static str = "allow_manual_verification";
/// Setting key: days a verification session is cached.
pub const SESSION_CACHE_DURATION_DAYS_KEY: &'static str = "session_cache_duration_days";

/// Default: background checking is off.
pub const DEFAULT_BACKGROUND_CHECK_ENABLED: bool = false;
/// Default: check every 60 minutes.
pub const DEFAULT_BACKGROUND_CHECK_INTERVAL_MINUTES: i32 = 60;
/// Default: the headless browser fallback is on.
pub const DEFAULT_ENABLE_HEADLESS_BROWSER: bool = true;
/// Default: manual verification is not allowed.
pub const DEFAULT_ALLOW_MANUAL_VERIFICATION: bool = false;
/// Default: sessions are cached for 14 days.
pub const DEFAULT_SESSION_CACHE_DURATION_DAYS: i32 = 14;

/// Maximum background check interval: 1 week (10080 minutes).
pub const MAX_BACKGROUND_CHECK_INTERVAL_MINUTES: i32 = 10080;
/// Minimum session cache duration: 1 day.
pub const MIN_SESSION_CACHE_DURATION_DAYS: i32 = 1;
/// Maximum session cache duration: 90 days.
pub const MAX_SESSION_CACHE_DURATION_DAYS: i32 = 90;

/// Domain-specific settings.
#[derive(Clone, Copy, Debug, PartialEq, Eq, Structural)]
pub struct DomainSettings {
    pub background_check_enabled: bool,
    pub background_check_interval_minutes: i32,
    pub enable_headless_browser: bool,
    pub allow_manual_verification: bool,
    pub session_cache_duration_days: i32,
}

impl Default for DomainSettings {
    /// The default settings.
    fn default() -> (r: Self)
        ensures
            r == (DomainSettings {
                background_check_enabled: false,
                background_check_interval_minutes: 60,
                enable_headless_browser: true,
                allow_manual_verification: false,
                session_cache_duration_days: 14,
            }),
    {
        DomainSettings {
            background_check_enabled: DEFAULT_BACKGROUND_CHECK_ENABLED,
            background_check_interval_minutes: DEFAULT_BACKGROUND_CHECK_INTERVAL_MINUTES,
            enable_headless_browser: DEFAULT_ENABLE_HEADLESS_BROWSER,
            allow_manual_verification: DEFAULT_ALLOW_MANUAL_VERIFICATION,
            session_cache_duration_days: DEFAULT_SESSION_CACHE_DURATION_DAYS,
        }
    }
}

/// Parameters for updating domain settings (all fields optional for partial updates).
#[derive(Clone, Copy, Debug)]
pub struct UpdateDomainSettingsParams {
    pub background_check_enabled: Option<bool>,
    pub background_check_interval_minutes: Option<i32>,
    pub enable_headless_browser: Option<bool>,
    pub allow_manual_verification: Option<bool>,
    pub session_cache_duration_days: Option<i32>,
}

impl Default for UpdateDomainSettingsParams {
    /// An update that changes nothing.
    fn default() -> (r: Self)
        ensures
            r.background_check_enabled is None,
            r.background_check_interval_minutes is None,
            r.enable_headless_browser is None,
            r.allow_manual_verification is None,
            r.session_cache_duration_days is None,
    {
        UpdateDomainSettingsParams {
            background_check_enabled: None,
            background_check_interval_minutes: None,
            enable_headless_browser: None,
            allow_manual_verification: None,
            session_cache_duration_days: None,
        }
    }
}

/// Domain settings loaded once for a bulk operation, with the time (in
/// seconds since the Unix epoch) they were loaded.
#[derive(Clone, Copy, Debug)]
pub struct DomainSettingsCache {
    settings: DomainSettings,
    loaded_at: i64,
}

impl DomainSettingsCache {
    /// The settings of this cache.
    pub closed spec fn settings_spec(self) -> DomainSettings {
        self.settings
    }

    /// The load time of this cache.
    pub closed spec fn loaded_at_spec(self) -> i64 {
        self.loaded_at
    }

    /// A cache of the given settings, loaded at the given time.
    pub fn new(settings: DomainSettings, loaded_at: i64) -> (r: Self)
        ensures
            r.settings_spec() == settings,
            r.loaded_at_spec() == loaded_at,
    {
        DomainSettingsCache { settings, loaded_at }
    }

    /// Check if background checking is enabled.
    pub fn background_check_enabled(&self) -> (r: bool)
        ensures
            r == self.settings_spec().background_check_enabled,
    {
        self.settings.background_check_enabled
    }

    /// Get the background check interval in minutes.
    pub fn background_check_interval_minutes(&self) -> (r: i32)
        ensures
            r == self.settings_spec().background_check_interval_minutes,
    {
        self.settings.background_check_interval_minutes
    }

    /// Check if the headless browser is enabled.
    pub fn enable_headless_browser(&self) -> (r: bool)
        ensures
            r == self.settings_spec().enable_headless_browser,
    {
        self.settings.enable_headless_browser
    }

    /// Check if manual verification is allowed.
    pub fn allow_manual_verification(&self) -> (r: bool)
        ensures
            r == self.settings_spec().allow_manual_verification,
    {
        self.settings.allow_manual_verification
    }

    /// Get the session cache duration in days.
    pub fn session_cache_duration_days(&self) -> (r: i32)
        ensures
            r == self.settings_spec().session_cache_duration_days,
    {
        self.settings.session_cache_duration_days
    }

    /// Get when these settings were loaded.
    pub fn loaded_at(&self) -> (r: i64)
        ensures
            r == self.loaded_at_spec(),
    {
        self.loaded_at
    }

    /// Get the full settings.
    pub fn settings(&self) -> (r: &DomainSettings)
        ensures
            *r == self.settings_spec(),
    {
        &self.settings
    }
}

/// Service layer for domain-specific settings.
pub struct DomainSettingService;

/// `v` clamped into `[lo, hi]`.
pub open spec fn clamp_spec(v: int, lo: int, hi: int) -> int {
    if v < lo {
        lo
    } else if v > hi {
        hi
    } else {
        v
    }
}

/// Stored settings with the interval clamped to 1..=10080 minutes and the
/// session duration to 1..=90 days.
pub open spec fn clamped(s: DomainSettings) -> DomainSettings {
    DomainSettings {
        background_check_interval_minutes: clamp_spec(s.background_check_interval_minutes as int, 1, 10080) as i32,
        session_cache_duration_days: clamp_spec(s.session_cache_duration_days as int, 1, 90) as i32,
        ..s
    }
}

/// Whether an interval is accepted: 1 to 10080 minutes.
pub open spec fn interval_valid(v: i32) -> bool {
    1 <= v <= 10080
}

/// Whether a session duration is accepted: 1 to 90 days.
pub open spec fn duration_valid(v: i32) -> bool {
    1 <= v <= 90
}

/// Whether an update is accepted: each value it gives is in range.
pub open spec fn update_valid(p: UpdateDomainSettingsParams) -> bool {
    (p.background_check_interval_minutes matches Some(v) ==> interval_valid(v))
        && (p.session_cache_duration_days matches Some(d) ==> duration_valid(d))
}

/// Stored settings after an update writes the values it gives.
pub open spec fn applied(s: DomainSettings, p: UpdateDomainSettingsParams) -> DomainSettings {
    DomainSettings {
        background_check_enabled: match p.background_check_enabled {
            Some(v) => v,
            None => s.background_check_enabled,
        },
        background_check_interval_minutes: match p.background_check_interval_minutes {
            Some(v) => v,
            None => s.background_check_interval_minutes,
        },
        enable_headless_browser: match p.enable_headless_browser {
            Some(v) => v,
            None => s.enable_headless_browser,
        },
        allow_manual_verification: match p.allow_manual_verification {
            Some(v) => v,
            None => s.allow_manual_verification,
        },
        session_cache_duration_days: match p.session_cache_duration_days {
            Some(v) => v,
            None => s.session_cache_duration_days,
        },
    }
}

/// The view of a unit result: `None` for success, the error's view otherwise.
pub open spec fn check_view(r: Result<(), AppError>) -> Option<(int, Seq<char>)> {
    match r {
        Ok(_) => None,
        Err(e) => Some(err_view(e)),
    }
}

/// What validating an interval gives.
pub open spec fn interval_check(v: i32) -> Option<(int, Seq<char>)> {
    if v <= 0 {
        Some((2int, "Background check interval must be a positive number of minutes"@))
    } else if v > 10080 {
        Some((2int, "Background check interval cannot exceed 10080 minutes (1 week)"@))
    } else {
        None
    }
}

/// What validating a session duration gives.
pub open spec fn duration_check(v: i32) -> Option<(int, Seq<char>)> {
    if v < 1 {
        Some((2int, "Session cache duration must be at least 1 day"@))
    } else if v > 90 {
        Some((2int, "Session cache duration cannot exceed 90 days"@))
    } else {
        None
    }
}

impl DomainSettingService {
    /// Validate a background check interval: positive and at most one week.
    pub fn validate_background_check_interval(interval: i32) -> (r: Result<(), AppError>)
        ensures
            check_view(r) == interval_check(interval),
            r is Ok <==> interval_valid(interval),
    {
        if interval <= 0 {
            return Err(AppError::Validation("Background check interval must be a positive number of minutes".to_string()));
        }
        if interval > MAX_BACKGROUND_CHECK_INTERVAL_MINUTES {
            return Err(AppError::Validation("Background check interval cannot exceed 10080 minutes (1 week)".to_string()));
        }
        Ok(())
    }

    /// Validate a session cache duration: 1 to 90 days.
    pub fn validate_session_cache_duration(duration: i32) -> (r: Result<(), AppError>)
        ensures
            check_view(r) == duration_check(duration),
            r is Ok <==> duration_valid(duration),
    {
        if duration < MIN_SESSION_CACHE_DURATION_DAYS {
            return Err(AppError::Validation("Session cache duration must be at least 1 day".to_string()));
        }
        if duration > MAX_SESSION_CACHE_DURATION_DAYS {
            return Err(AppError::Validation("Session cache duration cannot exceed 90 days".to_string()));
        }
        Ok(())
    }

    /// Validate an update before anything is written: the interval first,
    /// then the session duration.
    pub fn validate_update(params: &UpdateDomainSettingsParams) -> (r: Result<(), AppError>)
        ensures
            check_view(r) == match params.background_check_interval_minutes {
                Some(v) if interval_check(v) is Some => interval_check(v),
                _ => match params.session_cache_duration_days {
                    Some(d) => duration_check(d),
                    None => None,
                },
            },
            r is Ok <==> update_valid(*params),
    {
        match params.background_check_interval_minutes {
            Some(interval) => {
                let r = DomainSettingService::validate_background_check_interval(interval);
                if r.is_err() {
                    return r;
                }
            },
            None => {},
        }
        match params.session_cache_duration_days {
            Some(duration) => DomainSettingService::validate_session_cache_duration(duration),
            None => Ok(()),
        }
    }

    /// Clamp stored settings into their valid ranges, in case the store was
    /// changed directly.
    pub fn clamp_settings(stored: DomainSettings) -> (r: DomainSettings)
        ensures
            r == clamped(stored),
    {
        let mut s = stored;
        if s.background_check_interval_minutes < 1 {
            s.background_check_interval_minutes = 1;
        } else if s.background_check_interval_minutes > MAX_BACKGROUND_CHECK_INTERVAL_MINUTES {
            s.background_check_interval_minutes = MAX_BACKGROUND_CHECK_INTERVAL_MINUTES;
        }
        if s.session_cache_duration_days < MIN_SESSION_CACHE_DURATION_DAYS {
            s.session_cache_duration_days = MIN_SESSION_CACHE_DURATION_DAYS;
        } else if s.session_cache_duration_days > MAX_SESSION_CACHE_DURATION_DAYS {
            s.session_cache_duration_days = MAX_SESSION_CACHE_DURATION_DAYS;
        }
        s
    }

    /// The settings stored after a partial update writes the values it gives.
    pub fn apply_update(stored: DomainSettings, params: &UpdateDomainSettingsParams) -> (r: DomainSettings)
        ensures
            r == applied(stored, *params),
    {
        let mut s = stored;
        match params.background_check_enabled {
            Some(v) => s.background_check_enabled = v,
            None => {},
        }
        match params.background_check_interval_minutes {
            Some(v) => s.background_check_interval_minutes = v,
            None => {},
        }
        match params.enable_headless_browser {
            Some(v) => s.enable_headless_browser = v,
            None => {},
        }
        match params.allow_manual_verification {
            Some(v) => s.allow_manual_verification = v,
            None => {},
        }
        match params.session_cache_duration_days {
            Some(v) => s.session_cache_duration_days = v,
            None => {},
        }
        s
    }
}

} // verus!
