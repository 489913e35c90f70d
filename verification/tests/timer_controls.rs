use basket_timer::settings::{AppSettings, SettingsError};
use basket_timer::timer::{BasketTimer, TimerState};

#[test]
fn new_timer_has_defaults() {
    let t = BasketTimer::new();
    assert_eq!(t.initial_seconds, 12);
    assert_eq!(t.current_seconds, 12);
    assert_eq!(t.break_duration, 5);
    assert!(!t.loop_enabled);
    assert_eq!(t.state, TimerState::Stopped);
}

#[test]
fn default_timer_is_new_timer() {
    assert_eq!(BasketTimer::default(), BasketTimer::new());
}

#[test]
fn set_time_sets_start_and_countdown() {
    let mut t = BasketTimer::new();
    t.state = TimerState::Running;
    t.set_time(24);
    assert_eq!(t.initial_seconds, 24);
    assert_eq!(t.current_seconds, 24);
    assert_eq!(t.break_duration, 5);
    assert_eq!(t.state, TimerState::Running);
}

#[test]
fn reset_restores_start_and_stops() {
    let mut t = BasketTimer::new();
    t.current_seconds = 3;
    t.state = TimerState::Paused;
    t.reset();
    assert_eq!(t.current_seconds, 12);
    assert_eq!(t.state, TimerState::Stopped);
    let once = t;
    t.reset();
    assert_eq!(t, once);
}

#[test]
fn toggle_runs_then_pauses() {
    let mut t = BasketTimer::new();
    assert_eq!(t.toggle(), TimerState::Running);
    assert_eq!(t.state, TimerState::Running);
    assert_eq!(t.toggle(), TimerState::Paused);
    assert_eq!(t.toggle(), TimerState::Running);
    t.state = TimerState::OnBreak;
    assert_eq!(t.toggle(), TimerState::Running);
    assert_eq!(t.current_seconds, 12);
}

#[test]
fn with_default_settings_is_new_timer() {
    assert_eq!(BasketTimer::with_settings(&AppSettings::default()), BasketTimer::new());
}

#[test]
fn with_settings_keeps_state_stopped() {
    let s = AppSettings { start_seconds: 8, break_seconds: 6, loop_enabled: true };
    let t = BasketTimer::with_settings(&s);
    assert_eq!(t.initial_seconds, 8);
    assert_eq!(t.current_seconds, 8);
    assert_eq!(t.break_duration, 6);
    assert!(t.loop_enabled);
    assert_eq!(t.state, TimerState::Stopped);
}

#[test]
fn configure_keeps_state() {
    let mut t = BasketTimer::new();
    t.state = TimerState::Running;
    t.configure(&AppSettings { start_seconds: 7, break_seconds: 4, loop_enabled: true });
    assert_eq!(t.state, TimerState::Running);
    assert_eq!(t.current_seconds, 7);
}

#[test]
fn apply_settings_resets() {
    let mut t = BasketTimer::new();
    t.state = TimerState::Running;
    t.current_seconds = 2;
    t.apply_settings(&AppSettings { start_seconds: 10, break_seconds: 9, loop_enabled: true });
    assert_eq!(t.initial_seconds, 10);
    assert_eq!(t.current_seconds, 10);
    assert_eq!(t.break_duration, 9);
    assert!(t.loop_enabled);
    assert_eq!(t.state, TimerState::Stopped);
}

#[test]
fn submit_accepts_values_in_range() {
    let mut t = BasketTimer::new();
    t.state = TimerState::Running;
    let r = t.submit_settings(4, 12, true);
    assert_eq!(r, Ok(AppSettings { start_seconds: 4, break_seconds: 12, loop_enabled: true }));
    assert_eq!(t.initial_seconds, 4);
    assert_eq!(t.current_seconds, 4);
    assert_eq!(t.break_duration, 12);
    assert_eq!(t.state, TimerState::Stopped);
}

#[test]
fn submit_refuses_and_keeps_timer() {
    let mut t = BasketTimer::new();
    t.state = TimerState::Running;
    t.current_seconds = 6;
    let before = t;
    assert_eq!(t.submit_settings(3, 5, false), Err(SettingsError::StartOutOfRange));
    assert_eq!(t, before);
    assert_eq!(t.submit_settings(8, 13, false), Err(SettingsError::BreakOutOfRange));
    assert_eq!(t, before);
    assert_eq!(t.submit_settings(13, 2, false), Err(SettingsError::StartOutOfRange));
    assert_eq!(t, before);
}

#[test]
fn start_key_runs_and_pause_key_pauses() {
    let mut t = BasketTimer::new();
    t.start();
    assert_eq!(t.state, TimerState::Running);
    t.start();
    assert_eq!(t.state, TimerState::Running);
    t.pause();
    assert_eq!(t.state, TimerState::Paused);
    t.pause();
    assert_eq!(t.state, TimerState::Paused);
    t.reset();
    t.pause();
    assert_eq!(t.state, TimerState::Stopped);
    assert_eq!(t.current_seconds, 12);
}

#[test]
fn screen_at_start_up_shows_loaded_start() {
    let s = AppSettings { start_seconds: 8, break_seconds: 6, loop_enabled: false };
    let t = BasketTimer::with_settings(&s);
    assert_eq!(t.screen(), basket_timer::timer::Screen { time: 8, state: TimerState::Stopped });
    assert_eq!(
        BasketTimer::new().screen(),
        basket_timer::timer::Screen { time: 12, state: TimerState::Stopped }
    );
}
