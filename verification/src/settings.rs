//! User preferences: their defaults, the bounds the settings panel enforces,
//! and the choice between stored and default values.
use vstd::prelude::*;

verus! {

/// The saved settings.
#[derive(Clone, Copy, Debug, PartialEq, Eq, Structural)]
pub struct AppSettings {
    /// Starting time in seconds (must lie between 4 and 12).
    pub start_seconds: u32,
    /// Break between cycles (between 4 and 12 seconds).
    pub break_seconds: u32,
    /// Loop mode (automatic restart after the break).
    pub loop_enabled: bool,
}

/// Smallest starting time or break that the settings panel accepts (seconds).
pub const MIN_SECONDS: u32 = 4;

/// Largest starting time or break that the settings panel accepts (seconds).
pub const MAX_SECONDS: u32 = 12;

/// Why the settings panel refuses a pair of values.
#[derive(Clone, Copy, Debug, PartialEq, Eq, Structural)]
pub enum SettingsError {
    /// The starting time lies outside 4..=12.
    StartOutOfRange,
    /// The break length lies outside 4..=12.
    BreakOutOfRange,
}

/// The default settings.
pub open spec fn default_settings() -> AppSettings {
    AppSettings { start_seconds: 12, break_seconds: 5, loop_enabled: false }
}

/// A value that the settings panel accepts for the starting time or the break.
pub open spec fn in_range(v: u32) -> bool {
    MIN_SECONDS <= v <= MAX_SECONDS
}

/// What loading makes of the stored settings, if any could be read: they are
/// kept when both durations lie in range, replaced by the defaults otherwise.
pub open spec fn loaded_or_default(loaded: Option<AppSettings>) -> AppSettings {
    match loaded {
        Some(l) => if in_range(l.start_seconds) && in_range(l.break_seconds) {
            l
        } else {
            default_settings()
        },
        None => default_settings(),
    }
}

/// What the settings panel makes of the values typed in: the first value out
/// of range (starting time first) is reported, otherwise the new settings.
pub open spec fn validation(start: u32, brk: u32, loop_enabled: bool) -> Result<AppSettings, SettingsError> {
    if !in_range(start) {
        Err(SettingsError::StartOutOfRange)
    } else if !in_range(brk) {
        Err(SettingsError::BreakOutOfRange)
    } else {
        Ok(AppSettings { start_seconds: start, break_seconds: brk, loop_enabled })
    }
}

/// The settings panel accepts exactly the pairs whose values both lie in
/// 4..=12, and then keeps the values as typed.
pub proof fn lemma_validation_accepts_exactly_in_range(start: u32, brk: u32, loop_enabled: bool)
    ensures
        validation(start, brk, loop_enabled) is Ok <==> (in_range(start) && in_range(brk)),
        validation(start, brk, loop_enabled) matches Ok(s) ==> s == (AppSettings {
            start_seconds: start,
            break_seconds: brk,
            loop_enabled,
        }),
        !in_range(start) ==> validation(start, brk, loop_enabled) == Err::<AppSettings, SettingsError>(
            SettingsError::StartOutOfRange,
        ),
        in_range(start) && !in_range(brk) ==> validation(start, brk, loop_enabled) == Err::<
            AppSettings,
            SettingsError,
        >(SettingsError::BreakOutOfRange),
{
}

/// Settings accepted by the settings panel load back unchanged.
pub proof fn lemma_accepted_settings_survive_loading(start: u32, brk: u32, loop_enabled: bool)
    ensures
        validation(start, brk, loop_enabled) matches Ok(s) ==> loaded_or_default(Some(s)) == s,
{
}

/// The default settings are themselves accepted by the settings panel.
pub proof fn lemma_defaults_accepted()
    ensures
        validation(12, 5, false) == Ok::<AppSettings, SettingsError>(default_settings()),
{
}

impl Default for AppSettings {
    fn default() -> (s: Self)
        ensures
            s == default_settings(),
    {
        AppSettings { start_seconds: 12, break_seconds: 5, loop_enabled: false }
    }
}

impl AppSettings {
    /// The settings that loading yields: the stored ones when they could be read
    /// and decoded and both durations lie in 4..=12, the defaults otherwise.
    pub fn or_default(loaded: Option<AppSettings>) -> (s: AppSettings)
        ensures
            s == loaded_or_default(loaded),
            in_range(s.start_seconds),
            in_range(s.break_seconds),
    {
        match loaded {
            Some(l) => match AppSettings::validate(l.start_seconds, l.break_seconds, l.loop_enabled) {
                Ok(checked) => checked,
                Err(_) => AppSettings::default(),
            },
            None => AppSettings::default(),
        }
    }

    /// Checks the values typed into the settings panel and builds the new settings.
    pub fn validate(start: u32, brk: u32, loop_enabled: bool) -> (r: Result<AppSettings, SettingsError>)
        ensures
            r == validation(start, brk, loop_enabled),
    {
        if start < MIN_SECONDS || start > MAX_SECONDS {
            return Err(SettingsError::StartOutOfRange);
        }
        if brk < MIN_SECONDS || brk > MAX_SECONDS {
            return Err(SettingsError::BreakOutOfRange);
        }
        Ok(AppSettings { start_seconds: start, break_seconds: brk, loop_enabled })
    }
}

impl SettingsError {
    /// The message that the settings panel shows for this error.
    pub fn message(&self) -> (m: &'static str)
        ensures
            m@ == (match *self {
                SettingsError::StartOutOfRange => "Le temps de départ doit être compris entre 4 et 12 secondes"@,
                SettingsError::BreakOutOfRange => "La durée de pause doit être comprise entre 4 et 12 secondes"@,
            }),
    {
        match self {
            SettingsError::StartOutOfRange => "Le temps de départ doit être compris entre 4 et 12 secondes",
            SettingsError::BreakOutOfRange => "La durée de pause doit être comprise entre 4 et 12 secondes",
        }
    }
}

} // verus!
