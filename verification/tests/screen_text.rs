use basket_timer::display::{
    clock_text, number_clip_name, reset_disabled, status_label, toggle_class, toggle_label,
};
use basket_timer::timer::{BasketTimer, TimerState};

#[test]
fn first_launch_shows_twelve_seconds() {
    let t = BasketTimer::new();
    assert_eq!(clock_text(t.current_seconds), "00:12");
}

#[test]
fn clock_text_formats_minutes_and_seconds() {
    assert_eq!(clock_text(0), "00:00");
    assert_eq!(clock_text(9), "00:09");
    assert_eq!(clock_text(60), "01:00");
    assert_eq!(clock_text(75), "01:15");
    assert_eq!(clock_text(3599), "59:59");
    assert_eq!(clock_text(3600), "60:00");
    assert_eq!(clock_text(6000), "100:00");
    assert_eq!(clock_text(u32::MAX), format!("{:02}:{:02}", u32::MAX / 60, u32::MAX % 60));
}

#[test]
fn status_labels() {
    assert_eq!(status_label(TimerState::Running), "⏲ EN COURS");
    assert_eq!(status_label(TimerState::Paused), "⏸ EN PAUSE");
    assert_eq!(status_label(TimerState::Stopped), "⏹ ARRÊTÉ");
    assert_eq!(status_label(TimerState::OnBreak), "☕ PAUSE");
}

#[test]
fn toggle_button_text_and_style() {
    assert_eq!(toggle_label(TimerState::Running), "⏸ Pause");
    assert_eq!(toggle_label(TimerState::Paused), "▶ Démarrer");
    assert_eq!(toggle_label(TimerState::Stopped), "▶ Démarrer");
    assert_eq!(toggle_class(TimerState::Running), "btn btn-yellow");
    assert_eq!(toggle_class(TimerState::OnBreak), "btn btn-green");
}

#[test]
fn reset_disabled_only_when_stopped_at_zero() {
    assert!(reset_disabled(TimerState::Stopped, 0));
    assert!(!reset_disabled(TimerState::Stopped, 12));
    assert!(!reset_disabled(TimerState::Running, 0));
    assert!(!reset_disabled(TimerState::Paused, 0));
}

#[test]
fn number_clip_names() {
    assert_eq!(number_clip_name(0), "0.wav");
    assert_eq!(number_clip_name(7), "7.wav");
    assert_eq!(number_clip_name(12), "12.wav");
    assert_eq!(number_clip_name(4294967295), "4294967295.wav");
}
