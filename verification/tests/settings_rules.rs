use basket_timer::settings::{AppSettings, SettingsError};

#[test]
fn default_settings_values() {
    let s = AppSettings::default();
    assert_eq!(s.start_seconds, 12);
    assert_eq!(s.break_seconds, 5);
    assert!(!s.loop_enabled);
}

#[test]
fn or_default_prefers_loaded() {
    let l = AppSettings { start_seconds: 9, break_seconds: 7, loop_enabled: true };
    assert_eq!(AppSettings::or_default(Some(l)), l);
    assert_eq!(AppSettings::or_default(None), AppSettings::default());
}

#[test]
fn or_default_refuses_out_of_range() {
    let big = AppSettings { start_seconds: 100, break_seconds: 5, loop_enabled: true };
    assert_eq!(AppSettings::or_default(Some(big)), AppSettings::default());
    let short = AppSettings { start_seconds: 6, break_seconds: 3, loop_enabled: true };
    assert_eq!(AppSettings::or_default(Some(short)), AppSettings::default());
    let edge = AppSettings { start_seconds: 4, break_seconds: 12, loop_enabled: true };
    assert_eq!(AppSettings::or_default(Some(edge)), edge);
}

#[test]
fn validate_bounds() {
    assert!(AppSettings::validate(4, 4, false).is_ok());
    assert!(AppSettings::validate(12, 12, true).is_ok());
    assert_eq!(AppSettings::validate(3, 4, false), Err(SettingsError::StartOutOfRange));
    assert_eq!(AppSettings::validate(13, 4, false), Err(SettingsError::StartOutOfRange));
    assert_eq!(AppSettings::validate(4, 3, false), Err(SettingsError::BreakOutOfRange));
    assert_eq!(AppSettings::validate(4, 13, false), Err(SettingsError::BreakOutOfRange));
    assert_eq!(AppSettings::validate(0, 0, false), Err(SettingsError::StartOutOfRange));
    assert_eq!(
        AppSettings::validate(6, 8, true),
        Ok(AppSettings { start_seconds: 6, break_seconds: 8, loop_enabled: true })
    );
}

#[test]
fn default_settings_are_accepted() {
    assert_eq!(AppSettings::validate(12, 5, false), Ok(AppSettings::default()));
}

#[test]
fn error_messages() {
    assert_eq!(
        SettingsError::StartOutOfRange.message(),
        "Le temps de départ doit être compris entre 4 et 12 secondes"
    );
    assert_eq!(
        SettingsError::BreakOutOfRange.message(),
        "La durée de pause doit être comprise entre 4 et 12 secondes"
    );
}
