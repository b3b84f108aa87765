use product_stalker::commands::{CombinedUpdateParams, CoreSettings, SettingsResponse};
use product_stalker::domain_settings::{
    DomainSettingService, DomainSettings, DomainSettingsCache, UpdateDomainSettingsParams,
};
use product_stalker::error::AppError;

#[test]
fn test_default_domain_settings() {
    let settings = DomainSettings::default();
    assert!(!settings.background_check_enabled);
    assert_eq!(settings.background_check_interval_minutes, 60);
    assert!(settings.enable_headless_browser);
    assert!(!settings.allow_manual_verification);
    assert_eq!(settings.session_cache_duration_days, 14);
}

#[test]
fn test_validate_background_check_interval_accepts_positive_values() {
    assert!(DomainSettingService::validate_background_check_interval(15).is_ok());
    assert!(DomainSettingService::validate_background_check_interval(60).is_ok());
    assert!(DomainSettingService::validate_background_check_interval(1440).is_ok());
}

#[test]
fn test_validate_background_check_interval_rejects_zero() {
    assert!(DomainSettingService::validate_background_check_interval(0).is_err());
}

#[test]
fn test_validate_background_check_interval_rejects_negative() {
    assert!(DomainSettingService::validate_background_check_interval(-1).is_err());
}

#[test]
fn test_validate_background_check_interval_rejects_exceeding_max() {
    assert!(DomainSettingService::validate_background_check_interval(10081).is_err());
}

#[test]
fn test_validate_background_check_interval_accepts_max() {
    assert!(DomainSettingService::validate_background_check_interval(10080).is_ok());
}

#[test]
fn test_validate_session_cache_duration_accepts_valid_values() {
    assert!(DomainSettingService::validate_session_cache_duration(1).is_ok());
    assert!(DomainSettingService::validate_session_cache_duration(14).is_ok());
    assert!(DomainSettingService::validate_session_cache_duration(30).is_ok());
    assert!(DomainSettingService::validate_session_cache_duration(90).is_ok());
}

#[test]
fn test_validate_session_cache_duration_rejects_zero() {
    assert!(DomainSettingService::validate_session_cache_duration(0).is_err());
}

#[test]
fn test_validate_session_cache_duration_rejects_negative() {
    assert!(DomainSettingService::validate_session_cache_duration(-1).is_err());
}

#[test]
fn test_validate_session_cache_duration_rejects_exceeding_max() {
    assert!(DomainSettingService::validate_session_cache_duration(91).is_err());
}

#[test]
fn test_validation_messages() {
    match DomainSettingService::validate_background_check_interval(20000) {
        Err(AppError::Validation(m)) => assert_eq!(m, "Background check interval cannot exceed 10080 minutes (1 week)"),
        other => panic!("unexpected {:?}", other),
    }
    match DomainSettingService::validate_session_cache_duration(0) {
        Err(AppError::Validation(m)) => assert_eq!(m, "Session cache duration must be at least 1 day"),
        other => panic!("unexpected {:?}", other),
    }
}

#[test]
fn test_clamp_settings() {
    let raw = DomainSettings {
        background_check_enabled: true,
        background_check_interval_minutes: -5,
        enable_headless_browser: false,
        allow_manual_verification: true,
        session_cache_duration_days: 400,
    };
    let c = DomainSettingService::clamp_settings(raw);
    assert_eq!(c.background_check_interval_minutes, 1);
    assert_eq!(c.session_cache_duration_days, 90);
    assert!(c.background_check_enabled && c.allow_manual_verification && !c.enable_headless_browser);
    let d = DomainSettings::default();
    assert_eq!(DomainSettingService::clamp_settings(d), d);
}

#[test]
fn test_update_is_read_back() {
    let params = UpdateDomainSettingsParams {
        background_check_enabled: Some(true),
        background_check_interval_minutes: Some(10080),
        enable_headless_browser: None,
        allow_manual_verification: None,
        session_cache_duration_days: Some(1),
    };
    assert!(DomainSettingService::validate_update(&params).is_ok());
    let stored = DomainSettingService::apply_update(DomainSettings::default(), &params);
    let read = DomainSettingService::clamp_settings(stored);
    assert!(read.background_check_enabled);
    assert_eq!(read.background_check_interval_minutes, 10080);
    assert_eq!(read.session_cache_duration_days, 1);
    assert!(read.enable_headless_browser);
}

#[test]
fn test_validate_update_rejects_first_bad_value() {
    let mut params = UpdateDomainSettingsParams::default();
    params.background_check_interval_minutes = Some(0);
    params.session_cache_duration_days = Some(0);
    match DomainSettingService::validate_update(&params) {
        Err(AppError::Validation(m)) => assert!(m.starts_with("Background check interval")),
        other => panic!("unexpected {:?}", other),
    }
    params.background_check_interval_minutes = None;
    match DomainSettingService::validate_update(&params) {
        Err(AppError::Validation(m)) => assert!(m.starts_with("Session cache duration")),
        other => panic!("unexpected {:?}", other),
    }
}

#[test]
fn test_domain_settings_cache_getters() {
    let s = DomainSettings { session_cache_duration_days: 30, ..DomainSettings::default() };
    let cache = DomainSettingsCache::new(s, 1_700_000_000);
    assert!(!cache.background_check_enabled());
    assert_eq!(cache.background_check_interval_minutes(), 60);
    assert!(cache.enable_headless_browser());
    assert!(!cache.allow_manual_verification());
    assert_eq!(cache.session_cache_duration_days(), 30);
    assert_eq!(cache.loaded_at(), 1_700_000_000);
    assert_eq!(*cache.settings(), s);
}

fn core_settings(theme: &str) -> CoreSettings {
    CoreSettings {
        theme: theme.to_string(),
        show_in_tray: true,
        launch_at_login: false,
        enable_logging: true,
        log_level: "info".to_string(),
        enable_notifications: true,
        sidebar_expanded: false,
        color_palette: "default".to_string(),
        display_timezone: "auto".to_string(),
        date_format: "system".to_string(),
        updated_at: "2024-01-01T00:00:00+00:00".to_string(),
    }
}

#[test]
fn test_settings_response_from_merged() {
    let domain = DomainSettings {
        background_check_enabled: false,
        background_check_interval_minutes: 60,
        enable_headless_browser: true,
        ..DomainSettings::default()
    };
    let response = SettingsResponse::from_merged(core_settings("dark"), domain);
    assert_eq!(response.theme, "dark");
    assert!(response.show_in_tray);
    assert!(!response.launch_at_login);
    assert!(response.enable_logging);
    assert_eq!(response.log_level, "info");
    assert!(response.enable_notifications);
    assert!(!response.sidebar_expanded);
    assert!(!response.background_check_enabled);
    assert_eq!(response.background_check_interval_minutes, 60);
    assert!(response.enable_headless_browser);
    assert_eq!(response.color_palette, "default");
    assert_eq!(response.display_timezone, "auto");
    assert_eq!(response.date_format, "system");
    assert_eq!(response.updated_at, "2024-01-01T00:00:00+00:00");
}

#[test]
fn test_settings_response_from_merged_light_theme() {
    let settings = CoreSettings {
        theme: "light".to_string(),
        show_in_tray: false,
        launch_at_login: true,
        enable_logging: false,
        log_level: "error".to_string(),
        enable_notifications: false,
        sidebar_expanded: true,
        color_palette: "ocean".to_string(),
        display_timezone: "America/New_York".to_string(),
        date_format: "MM/DD/YYYY".to_string(),
        updated_at: "2024-06-01T12:00:00+00:00".to_string(),
    };
    let domain = DomainSettings {
        background_check_enabled: true,
        background_check_interval_minutes: 30,
        enable_headless_browser: false,
        ..DomainSettings::default()
    };
    let response = SettingsResponse::from_merged(settings, domain);
    assert_eq!(response.theme, "light");
    assert!(!response.show_in_tray);
    assert!(response.launch_at_login);
    assert!(!response.enable_logging);
    assert_eq!(response.log_level, "error");
    assert!(!response.enable_notifications);
    assert!(response.sidebar_expanded);
    assert!(response.background_check_enabled);
    assert_eq!(response.background_check_interval_minutes, 30);
    assert!(!response.enable_headless_browser);
    assert_eq!(response.color_palette, "ocean");
    assert_eq!(response.display_timezone, "America/New_York");
    assert_eq!(response.date_format, "MM/DD/YYYY");
}

#[test]
fn test_combined_update_domain_params() {
    let params = CombinedUpdateParams {
        theme: Some("dark".to_string()),
        show_in_tray: None,
        launch_at_login: None,
        enable_logging: None,
        log_level: None,
        enable_notifications: None,
        sidebar_expanded: None,
        background_check_enabled: Some(true),
        background_check_interval_minutes: Some(15),
        enable_headless_browser: Some(false),
        color_palette: None,
        display_timezone: None,
        date_format: None,
    };
    let d = params.domain_params();
    assert_eq!(d.background_check_enabled, Some(true));
    assert_eq!(d.background_check_interval_minutes, Some(15));
    assert_eq!(d.enable_headless_browser, Some(false));
    assert_eq!(d.allow_manual_verification, None);
    assert_eq!(d.session_cache_duration_days, None);
}

#[test]
fn test_settings_response_from_merged_system_theme() {
    let settings = CoreSettings {
        theme: "system".to_string(),
        log_level: "debug".to_string(),
        color_palette: "rose".to_string(),
        ..core_settings("system")
    };
    let response = SettingsResponse::from_merged(settings, DomainSettings::default());
    assert_eq!(response.theme, "system");
    assert_eq!(response.log_level, "debug");
    assert_eq!(response.color_palette, "rose");
}
