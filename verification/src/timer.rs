//! The shot-clock timer: its states and the operations the controls perform on it.
use vstd::prelude::*;

use crate::settings::{AppSettings, SettingsError, default_settings, validation};

verus! {

/// Possible states of the timer.
#[derive(Clone, Copy, Debug, PartialEq, Eq, Structural)]
pub enum TimerState {
    /// Stopped (timer just created or reset).
    Stopped,
    /// Countdown in progress.
    Running,
    /// Paused by the user.
    Paused,
    /// Automatic break between two cycles (loop mode).
    OnBreak,
}

/// The main timer.
#[derive(Clone, Copy, Debug, PartialEq, Eq, Structural)]
pub struct BasketTimer {
    /// Starting value (seconds).
    pub initial_seconds: u32,
    /// Current value (seconds left).
    pub current_seconds: u32,
    /// Length of the break between cycles (seconds).
    pub break_duration: u32,
    /// Repeat the countdown in a loop.
    pub loop_enabled: bool,
    /// Current state of the timer.
    pub state: TimerState,
    /// Seconds of the loop-mode break still to wait (0 when no break is pending).
    pub break_remaining: u32,
}

/// What the main screen shows of a timer: the time and the state.
#[derive(Clone, Copy, Debug, PartialEq, Eq, Structural)]
pub struct Screen {
    /// The seconds shown on the clock face.
    pub time: u32,
    /// The state shown on the status line.
    pub state: TimerState,
}

/// The screen that shows timer `t` as it stands.
pub open spec fn screen_of(t: BasketTimer) -> Screen {
    Screen { time: t.current_seconds, state: t.state }
}

/// Starting time of a fresh timer (seconds).
pub const DEFAULT_START_SECONDS: u32 = 12;

/// Break length of a fresh timer (seconds).
pub const DEFAULT_BREAK_SECONDS: u32 = 5;

/// The timer that `BasketTimer::new` builds.
pub open spec fn fresh_timer() -> BasketTimer {
    BasketTimer {
        initial_seconds: DEFAULT_START_SECONDS,
        current_seconds: DEFAULT_START_SECONDS,
        break_duration: DEFAULT_BREAK_SECONDS,
        loop_enabled: false,
        state: TimerState::Stopped,
        break_remaining: 0,
    }
}

/// The state that the start/pause button moves the timer to.
pub open spec fn toggled_state(s: TimerState) -> TimerState {
    match s {
        TimerState::Running => TimerState::Paused,
        _ => TimerState::Running,
    }
}

/// `t` configured from `s`: starting time, break length and loop mode set,
/// the countdown put back to the new starting time, the state untouched.
pub open spec fn configured(t: BasketTimer, s: AppSettings) -> BasketTimer {
    BasketTimer {
        initial_seconds: s.start_seconds,
        current_seconds: s.start_seconds,
        break_duration: s.break_seconds,
        loop_enabled: s.loop_enabled,
        ..t
    }
}

/// What the timer holds after a reset: back at its starting time, stopped,
/// with no break pending.
pub open spec fn reset_of(t: BasketTimer) -> BasketTimer {
    BasketTimer {
        current_seconds: t.initial_seconds,
        state: TimerState::Stopped,
        break_remaining: 0,
        ..t
    }
}

/// Pressing start/pause twice on a running or paused timer gives back its state.
pub proof fn lemma_toggle_twice(s: TimerState)
    requires
        s == TimerState::Running || s == TimerState::Paused,
    ensures
        toggled_state(toggled_state(s)) == s,
{
}

/// The start/pause button never stops the timer nor sends it on break.
pub proof fn lemma_toggle_runs_or_pauses(s: TimerState)
    ensures
        toggled_state(s) == TimerState::Running || toggled_state(s) == TimerState::Paused,
{
}

/// Resetting twice is resetting once.
pub proof fn lemma_reset_idempotent(t: BasketTimer)
    ensures
        reset_of(reset_of(t)) == reset_of(t),
{
}

/// After a reset the countdown stands at the starting time, stopped.
pub proof fn lemma_reset_restores_start(t: BasketTimer)
    ensures
        reset_of(t).current_seconds == t.initial_seconds,
        reset_of(t).initial_seconds == t.initial_seconds,
        reset_of(t).state == TimerState::Stopped,
        reset_of(t).break_remaining == 0,
{
}

/// A timer built from the default settings is the fresh timer: the two
/// sets of defaults agree.
pub proof fn lemma_default_settings_give_fresh_timer()
    ensures
        configured(fresh_timer(), default_settings()) == fresh_timer(),
{
}

/// Applying settings gives the same timer whatever it held before, apart from
/// the state it was in before, which the reset replaces.
pub proof fn lemma_apply_settings_forgets_countdown(t1: BasketTimer, t2: BasketTimer, s: AppSettings)
    ensures
        reset_of(configured(t1, s)) == reset_of(configured(t2, s)),
        reset_of(configured(t1, s)) == reset_of(configured(fresh_timer(), s)),
{
}

/// At start-up, after a reset and after saving settings, the screen shows the
/// starting time and the stopped state.
pub proof fn lemma_screen_shows_start_when_stopped(t: BasketTimer, s: AppSettings)
    ensures
        screen_of(configured(fresh_timer(), s)) == (Screen { time: s.start_seconds, state: TimerState::Stopped }),
        screen_of(reset_of(t)) == (Screen { time: t.initial_seconds, state: TimerState::Stopped }),
        screen_of(reset_of(configured(t, s))) == (Screen { time: s.start_seconds, state: TimerState::Stopped }),
{
}

/// Reset keeps the configuration: the starting time, the break length and the
/// loop mode are those the timer had; only the countdown, the state and the
/// pending break change.
pub proof fn lemma_reset_keeps_configuration(t: BasketTimer)
    ensures
        reset_of(t).initial_seconds == t.initial_seconds,
        reset_of(t).break_duration == t.break_duration,
        reset_of(t).loop_enabled == t.loop_enabled,
        reset_of(t).current_seconds == t.initial_seconds,
        reset_of(t).state == TimerState::Stopped,
        reset_of(t).break_remaining == 0,
{
}

/// Configuring a timer from settings takes over exactly the three settings,
/// with the countdown at the new starting time; it neither changes the state
/// nor arms a break.
pub proof fn lemma_configure_arms_no_break(t: BasketTimer, s: AppSettings)
    ensures
        configured(t, s).initial_seconds == s.start_seconds,
        configured(t, s).current_seconds == s.start_seconds,
        configured(t, s).break_duration == s.break_seconds,
        configured(t, s).loop_enabled == s.loop_enabled,
        configured(t, s).state == t.state,
        configured(t, s).break_remaining == t.break_remaining,
{
}

/// A timer built from any settings is stopped at their starting time with no
/// break pending.
pub proof fn lemma_built_timer_is_stopped(s: AppSettings)
    ensures
        configured(fresh_timer(), s).state == TimerState::Stopped,
        configured(fresh_timer(), s).break_remaining == 0,
        configured(fresh_timer(), s).current_seconds == s.start_seconds,
        configured(fresh_timer(), s).initial_seconds == s.start_seconds,
{
}

/// The operations of the controls keep the seconds left within the starting time.
pub proof fn lemma_controls_keep_bound(t: BasketTimer, s: AppSettings)
    requires
        t.current_seconds <= t.initial_seconds,
    ensures
        reset_of(t).current_seconds <= reset_of(t).initial_seconds,
        (BasketTimer { state: toggled_state(t.state), ..t }).current_seconds <= t.initial_seconds,
        configured(t, s).current_seconds <= configured(t, s).initial_seconds,
        reset_of(configured(t, s)).current_seconds <= reset_of(configured(t, s)).initial_seconds,
{
}

impl BasketTimer {
    /// What the main screen shows of this timer: its seconds left and its
    /// state. The application refreshes its screen from it at start-up, after a
    /// reset and after saving settings.
    pub fn screen(&self) -> (s: Screen)
        ensures
            s == screen_of(*self),
    {
        Screen { time: self.current_seconds, state: self.state }
    }

    /// Creates a timer with the default values (12 seconds, 5 s break, loop off).
    pub fn new() -> (t: Self)
        ensures
            t == fresh_timer(),
    {
        BasketTimer {
            initial_seconds: DEFAULT_START_SECONDS,
            current_seconds: DEFAULT_START_SECONDS,
            break_duration: DEFAULT_BREAK_SECONDS,
            loop_enabled: false,
            state: TimerState::Stopped,
            break_remaining: 0,
        }
    }

    /// Changes the starting time and puts the countdown back to it.
    pub fn set_time(&mut self, seconds: u32)
        ensures
            *final(self) == (BasketTimer {
                initial_seconds: seconds,
                current_seconds: seconds,
                ..*old(self)
            }),
    {
        self.initial_seconds = seconds;
        self.current_seconds = seconds;
    }

    /// Puts the timer back to its starting value and into the `Stopped` state.
    pub fn reset(&mut self)
        ensures
            *final(self) == reset_of(*old(self)),
            final(self).current_seconds == old(self).initial_seconds,
            final(self).state == TimerState::Stopped,
            final(self).break_remaining == 0,
            final(self).initial_seconds == old(self).initial_seconds,
            final(self).break_duration == old(self).break_duration,
            final(self).loop_enabled == old(self).loop_enabled,
    {
        self.current_seconds = self.initial_seconds;
        self.state = TimerState::Stopped;
        self.break_remaining = 0;
    }

    /// The start/pause button: a running timer pauses, any other one runs.
    /// Returns the new state.
    pub fn toggle(&mut self) -> (s: TimerState)
        ensures
            s == toggled_state(old(self).state),
            *final(self) == (BasketTimer { state: s, ..*old(self) }),
    {
        match self.state {
            TimerState::Running => {
                self.state = TimerState::Paused;
            },
            _ => {
                self.state = TimerState::Running;
            },
        }
        self.state
    }

    /// The start key: a timer that is not running runs; a running one is left alone.
    pub fn start(&mut self)
        ensures
            *final(self) == (BasketTimer { state: TimerState::Running, ..*old(self) }),
    {
        self.state = TimerState::Running;
    }

    /// The pause key: a running timer pauses; any other is left alone.
    pub fn pause(&mut self)
        ensures
            *final(self) == (if old(self).state == TimerState::Running {
                BasketTimer { state: TimerState::Paused, ..*old(self) }
            } else {
                *old(self)
            }),
    {
        if self.state == TimerState::Running {
            self.state = TimerState::Paused;
        }
    }

    /// Takes over the starting time, break length and loop mode of `settings`,
    /// leaving the state as it is.
    pub fn configure(&mut self, settings: &AppSettings)
        ensures
            *final(self) == configured(*old(self), *settings),
            final(self).initial_seconds == settings.start_seconds,
            final(self).current_seconds == settings.start_seconds,
            final(self).break_duration == settings.break_seconds,
            final(self).loop_enabled == settings.loop_enabled,
            final(self).state == old(self).state,
            final(self).break_remaining == old(self).break_remaining,
    {
        self.set_time(settings.start_seconds);
        self.break_duration = settings.break_seconds;
        self.loop_enabled = settings.loop_enabled;
    }

    /// A fresh timer configured from `settings`, as the application builds it at start-up.
    pub fn with_settings(settings: &AppSettings) -> (t: Self)
        ensures
            t == configured(fresh_timer(), *settings),
            t.initial_seconds == settings.start_seconds,
            t.current_seconds == settings.start_seconds,
            t.break_duration == settings.break_seconds,
            t.loop_enabled == settings.loop_enabled,
            t.state == TimerState::Stopped,
            t.break_remaining == 0,
    {
        let mut t = BasketTimer::new();
        t.configure(settings);
        t
    }

    /// Applies saved settings: the timer is configured from them, then reset.
    pub fn apply_settings(&mut self, settings: &AppSettings)
        ensures
            *final(self) == reset_of(configured(*old(self), *settings)),
    {
        self.configure(settings);
        self.reset();
    }

    /// Saving the settings panel: the values typed in are checked; accepted
    /// ones are applied to the timer and returned, refused ones leave the timer
    /// as it was.
    pub fn submit_settings(&mut self, start: u32, brk: u32, loop_enabled: bool) -> (r: Result<AppSettings, SettingsError>)
        ensures
            r == validation(start, brk, loop_enabled),
            match r {
                Ok(s) => *final(self) == reset_of(configured(*old(self), s)),
                Err(_) => *final(self) == *old(self),
            },
    {
        let r = AppSettings::validate(start, brk, loop_enabled);
        match &r {
            Ok(s) => self.apply_settings(s),
            Err(_) => {},
        }
        r
    }
}

impl Default for BasketTimer {
    fn default() -> (t: Self)
        ensures
            t == fresh_timer(),
    {
        Self::new()
    }
}

} // verus!
