//! The once-a-second transition that drives the shot clock, and what follows
//! from it over many seconds: the spoken countdown, the siren at zero, the
//! break and restart of loop mode, and the silence of a reset clock.
use vstd::prelude::*;

use crate::settings::AppSettings;
use crate::timer::{BasketTimer, TimerState, configured, fresh_timer, reset_of, toggled_state};

verus! {

/// The sound to play during a tick.
#[derive(Clone, Copy, Debug, PartialEq, Eq, Structural)]
pub enum Sound {
    /// Nothing to play.
    Silent,
    /// Announce this number of seconds.
    Number(u32),
    /// The siren that marks the end of the countdown.
    Siren,
}

/// What one tick asks the surroundings to do.
#[derive(Clone, Copy, Debug, PartialEq, Eq, Structural)]
pub struct TickOutput {
    /// The time to show, where it changes.
    pub shown_time: Option<u32>,
    /// The state to show, where it changes.
    pub shown_state: Option<TimerState>,
    /// The sound to play.
    pub sound: Sound,
    /// Whether the clock is idle (paused, stopped or on break) and the caller
    /// waits a short while before the next tick.
    pub idle: bool,
}

/// The result of a tick.
pub open spec fn output(shown_time: Option<u32>, shown_state: Option<TimerState>, sound: Sound, idle: bool) -> TickOutput {
    TickOutput { shown_time, shown_state, sound, idle }
}

/// One second of the clock: the new timer and what the tick asks for.
///
/// - During a break, one second of it passes; when it is over the countdown
///   starts again from the starting time.
/// - A running timer above zero announces its value and loses a second.
/// - A running timer at zero sounds the siren; in loop mode it starts again at
///   once (no break) or goes on break, otherwise it stops, back at the starting
///   time, which is shown again.
/// - A paused or stopped timer only shows its state; a timer on break with no
///   break left to wait does nothing.
pub open spec fn tick_step(t: BasketTimer) -> (BasketTimer, TickOutput) {
    if t.break_remaining > 0 {
        let left = (t.break_remaining - 1) as u32;
        if left == 0 {
            (
                BasketTimer {
                    current_seconds: t.initial_seconds,
                    state: TimerState::Running,
                    break_remaining: 0,
                    ..t
                },
                output(None, Some(TimerState::Running), Sound::Silent, false),
            )
        } else {
            (
                BasketTimer { break_remaining: left, ..t },
                output(None, Some(TimerState::OnBreak), Sound::Silent, false),
            )
        }
    } else {
        match t.state {
            TimerState::Running => {
                if t.current_seconds > 0 {
                    (
                        BasketTimer { current_seconds: (t.current_seconds - 1) as u32, ..t },
                        output(Some(t.current_seconds), None, Sound::Number(t.current_seconds), false),
                    )
                } else if t.loop_enabled {
                    if t.break_duration == 0 {
                        (
                            BasketTimer { current_seconds: t.initial_seconds, ..t },
                            output(Some(0), None, Sound::Siren, false),
                        )
                    } else {
                        (
                            BasketTimer { state: TimerState::OnBreak, break_remaining: t.break_duration, ..t },
                            output(Some(0), Some(TimerState::OnBreak), Sound::Siren, false),
                        )
                    }
                } else {
                    (
                        BasketTimer { current_seconds: t.initial_seconds, state: TimerState::Stopped, ..t },
                        output(Some(t.initial_seconds), Some(TimerState::Stopped), Sound::Siren, false),
                    )
                }
            },
            TimerState::Paused => (t, output(None, Some(TimerState::Paused), Sound::Silent, true)),
            TimerState::Stopped => (t, output(None, Some(TimerState::Stopped), Sound::Silent, true)),
            TimerState::OnBreak => (t, output(None, None, Sound::Silent, true)),
        }
    }
}

/// The timer after `k` ticks.
pub open spec fn run(t: BasketTimer, k: nat) -> BasketTimer
    decreases k,
{
    if k == 0 {
        t
    } else {
        run(tick_step(t).0, (k - 1) as nat)
    }
}

/// The sounds of `k` ticks, in order.
pub open spec fn sounds(t: BasketTimer, k: nat) -> Seq<Sound>
    decreases k,
{
    if k == 0 {
        Seq::empty()
    } else {
        seq![tick_step(t).1.sound] + sounds(tick_step(t).0, (k - 1) as nat)
    }
}

/// The announcements of a countdown of `k` seconds from `c`: `c`, `c - 1`, ...
pub open spec fn announcements(c: u32, k: nat) -> Seq<Sound> {
    Seq::new(k, |i: int| Sound::Number((c - i) as u32))
}

/// `k` silent ticks.
pub open spec fn silence(k: nat) -> Seq<Sound> {
    Seq::new(k, |i: int| Sound::Silent)
}

/// Running `m` ticks and then `n` more is running `m + n` ticks, and the
/// sounds of the two stretches follow each other.
pub proof fn lemma_run_split(t: BasketTimer, m: nat, n: nat)
    ensures
        run(t, m + n) == run(run(t, m), n),
        sounds(t, m + n) == sounds(t, m) + sounds(run(t, m), n),
    decreases m,
{
    if m == 0 {
        assert(sounds(t, n) == Seq::<Sound>::empty() + sounds(t, n));
    } else {
        let t1 = tick_step(t).0;
        let snd = tick_step(t).1.sound;
        lemma_run_split(t1, (m - 1) as nat, n);
        assert((m + n - 1) as nat == (m - 1) as nat + n);
        assert(sounds(t, m + n) == seq![snd] + sounds(t1, (m - 1 + n) as nat));
        assert(seq![snd] + (sounds(t1, (m - 1) as nat) + sounds(run(t1, (m - 1) as nat), n)) == (seq![snd]
            + sounds(t1, (m - 1) as nat)) + sounds(run(t1, (m - 1) as nat), n));
    }
}

/// The voice countdown: a running timer at `c` seconds, with no break pending,
/// announces `c`, `c - 1`, ... one number a second, losing a second each time.
pub proof fn lemma_countdown(t: BasketTimer, k: nat)
    requires
        t.state == TimerState::Running,
        t.break_remaining == 0,
        k <= t.current_seconds,
    ensures
        run(t, k) == (BasketTimer { current_seconds: (t.current_seconds - k) as u32, ..t }),
        sounds(t, k) == announcements(t.current_seconds, k),
    decreases k,
{
    if k == 0 {
        assert(sounds(t, 0) =~= announcements(t.current_seconds, 0));
    } else {
        let c = t.current_seconds;
        let t1 = BasketTimer { current_seconds: (c - 1) as u32, ..t };
        assert(tick_step(t) == (t1, output(Some(c), None, Sound::Number(c), false)));
        lemma_countdown(t1, (k - 1) as nat);
        assert(sounds(t, k) =~= announcements(c, k));
    }
}

/// A pending break of `b` seconds lasts `b` ticks, in silence, and ends with
/// the countdown running again from the starting time.
pub proof fn lemma_break_then_restart(t: BasketTimer)
    requires
        t.break_remaining > 0,
    ensures
        run(t, t.break_remaining as nat) == (BasketTimer {
            current_seconds: t.initial_seconds,
            state: TimerState::Running,
            break_remaining: 0,
            ..t
        }),
        sounds(t, t.break_remaining as nat) == silence(t.break_remaining as nat),
    decreases t.break_remaining,
{
    reveal_with_fuel(run, 2);
    reveal_with_fuel(sounds, 2);
    let b = t.break_remaining;
    if b == 1 {
        assert(sounds(t, 1) =~= silence(1));
    } else {
        let t1 = BasketTimer { break_remaining: (b - 1) as u32, ..t };
        assert(tick_step(t) == (t1, output(None, Some(TimerState::OnBreak), Sound::Silent, false)));
        lemma_break_then_restart(t1);
        assert(sounds(t, b as nat) =~= silence(b as nat));
    }
}

/// A running timer at `c` seconds, with no break pending, spends `c` ticks
/// announcing `c` down to 1 and then reaches zero: the first `c + 1` ticks are
/// that countdown followed by the tick of the timer at zero.
proof fn lemma_countdown_then_zero(t: BasketTimer)
    requires
        t.state == TimerState::Running,
        t.break_remaining == 0,
    ensures
        run(t, t.current_seconds as nat + 1) == run(BasketTimer { current_seconds: 0, ..t }, 1),
        sounds(t, t.current_seconds as nat + 1) == announcements(t.current_seconds, t.current_seconds as nat)
            + sounds(BasketTimer { current_seconds: 0, ..t }, 1),
{
    let c = t.current_seconds as nat;
    lemma_countdown(t, c);
    lemma_run_split(t, c, 1);
}

/// Without loop mode, a running timer at `c` seconds announces `c` down to 1,
/// then sounds the siren and stops, back at its starting time.
pub proof fn lemma_cycle_without_loop(t: BasketTimer)
    requires
        t.state == TimerState::Running,
        t.break_remaining == 0,
        !t.loop_enabled,
    ensures
        run(t, t.current_seconds as nat + 1) == (BasketTimer {
            current_seconds: t.initial_seconds,
            state: TimerState::Stopped,
            ..t
        }),
        sounds(t, t.current_seconds as nat + 1) == announcements(t.current_seconds, t.current_seconds as nat).push(
            Sound::Siren,
        ),
{
    reveal_with_fuel(run, 2);
    reveal_with_fuel(sounds, 2);
    lemma_countdown_then_zero(t);
    let t0 = BasketTimer { current_seconds: 0, ..t };
    assert(sounds(t0, 1) =~= seq![Sound::Siren]);
    assert(announcements(t.current_seconds, t.current_seconds as nat) + seq![Sound::Siren]
        =~= announcements(t.current_seconds, t.current_seconds as nat).push(Sound::Siren));
}

/// After a countdown has stopped by itself, pressing start begins the
/// countdown again: the next tick announces the starting time.
pub proof fn lemma_start_after_stop_counts_down(t: BasketTimer)
    requires
        t.state == TimerState::Running,
        t.break_remaining == 0,
        !t.loop_enabled,
        t.initial_seconds > 0,
    ensures
        ({
            let stopped = run(t, t.current_seconds as nat + 1);
            let started = BasketTimer { state: toggled_state(stopped.state), ..stopped };
            &&& tick_step(started).1.sound == Sound::Number(t.initial_seconds)
            &&& tick_step(started).0.state == TimerState::Running
            &&& tick_step(started).0.current_seconds == t.initial_seconds - 1
        }),
{
    lemma_cycle_without_loop(t);
}

/// Loop mode with no break: after announcing `c` down to 1 and sounding the
/// siren, the countdown runs again from the starting time.
pub proof fn lemma_cycle_with_loop_no_break(t: BasketTimer)
    requires
        t.state == TimerState::Running,
        t.break_remaining == 0,
        t.loop_enabled,
        t.break_duration == 0,
    ensures
        run(t, t.current_seconds as nat + 1) == (BasketTimer { current_seconds: t.initial_seconds, ..t }),
        sounds(t, t.current_seconds as nat + 1) == announcements(t.current_seconds, t.current_seconds as nat).push(
            Sound::Siren,
        ),
{
    reveal_with_fuel(run, 2);
    reveal_with_fuel(sounds, 2);
    lemma_countdown_then_zero(t);
    let t0 = BasketTimer { current_seconds: 0, ..t };
    assert(sounds(t0, 1) =~= seq![Sound::Siren]);
    assert(announcements(t.current_seconds, t.current_seconds as nat) + seq![Sound::Siren]
        =~= announcements(t.current_seconds, t.current_seconds as nat).push(Sound::Siren));
}

/// Loop mode with a break of `b > 0` seconds: after announcing `c` down to 1,
/// the siren, and `b` silent seconds of break, the countdown runs again from
/// the starting time.
pub proof fn lemma_cycle_with_loop_and_break(t: BasketTimer)
    requires
        t.state == TimerState::Running,
        t.break_remaining == 0,
        t.loop_enabled,
        t.break_duration > 0,
    ensures
        run(t, t.current_seconds as nat + 1 + t.break_duration as nat) == (BasketTimer {
            current_seconds: t.initial_seconds,
            ..t
        }),
        sounds(t, t.current_seconds as nat + 1 + t.break_duration as nat) == announcements(
            t.current_seconds,
            t.current_seconds as nat,
        ).push(Sound::Siren) + silence(t.break_duration as nat),
{
    reveal_with_fuel(run, 2);
    reveal_with_fuel(sounds, 2);
    let c = t.current_seconds as nat;
    let b = t.break_duration;
    lemma_countdown_then_zero(t);
    let t0 = BasketTimer { current_seconds: 0, ..t };
    let tb = BasketTimer { current_seconds: 0, state: TimerState::OnBreak, break_remaining: b, ..t };
    assert(run(t0, 1) == tb);
    assert(sounds(t0, 1) =~= seq![Sound::Siren]);
    lemma_run_split(t, c + 1, b as nat);
    lemma_break_then_restart(tb);
    assert(announcements(t.current_seconds, c) + seq![Sound::Siren] =~= announcements(t.current_seconds, c).push(
        Sound::Siren,
    ));
}

/// With no break pending, a paused or stopped timer is left as it is by a
/// tick, which plays nothing.
pub proof fn lemma_idle_tick(t: BasketTimer)
    requires
        t.state == TimerState::Paused || t.state == TimerState::Stopped,
        t.break_remaining == 0,
    ensures
        tick_step(t).0 == t,
        tick_step(t).1.sound == Sound::Silent,
        tick_step(t).1.idle,
{
}

/// Reset ends everything, a pending break included: after a reset, every
/// tick is silent and the timer stays stopped at its starting time until
/// start is pressed.
pub proof fn lemma_reset_stays_stopped(t: BasketTimer, k: nat)
    ensures
        run(reset_of(t), k) == reset_of(t),
        sounds(reset_of(t), k) == silence(k),
    decreases k,
{
    if k == 0 {
        assert(sounds(reset_of(t), 0) =~= silence(0));
    } else {
        lemma_idle_tick(reset_of(t));
        lemma_reset_stays_stopped(t, (k - 1) as nat);
        assert(sounds(reset_of(t), k) =~= silence(k));
    }
}

/// A tick never lets the seconds left exceed the starting time, and never
/// changes the starting time, the break length or the loop mode.
pub proof fn lemma_tick_keeps_bounds(t: BasketTimer)
    requires
        t.current_seconds <= t.initial_seconds,
    ensures
        tick_step(t).0.current_seconds <= tick_step(t).0.initial_seconds,
        tick_step(t).0.initial_seconds == t.initial_seconds,
        tick_step(t).0.break_duration == t.break_duration,
        tick_step(t).0.loop_enabled == t.loop_enabled,
{
}

/// A tick never lets the pending break exceed the break length.
pub proof fn lemma_tick_keeps_break_bound(t: BasketTimer)
    requires
        t.break_remaining <= t.break_duration,
    ensures
        tick_step(t).0.break_remaining <= tick_step(t).0.break_duration,
{
}

/// The time a tick shows is always the timer's own: the seconds it had
/// before the tick or those it has after.
pub proof fn lemma_shown_time_is_the_timers(t: BasketTimer)
    ensures
        tick_step(t).1.shown_time matches Some(x) ==> (x == t.current_seconds || x
            == tick_step(t).0.current_seconds),
{
}

/// A tick that announces a number shows that same number, which is the
/// seconds the timer had; the timer then has one second less.
pub proof fn lemma_announced_number_is_shown(t: BasketTimer)
    ensures
        tick_step(t).1.sound matches Sound::Number(n) ==> {
            &&& tick_step(t).1.shown_time == Some(n)
            &&& n == t.current_seconds
            &&& n > 0
            &&& tick_step(t).0.current_seconds == n - 1
            &&& tick_step(t).0.state == TimerState::Running
        },
{
}

/// A running timer that a tick stops has reached zero: the siren sounds and
/// the timer, and the screen, go back to its own starting time.
pub proof fn lemma_stop_shows_start(t: BasketTimer)
    ensures
        t.state == TimerState::Running && tick_step(t).0.state == TimerState::Stopped ==> {
            &&& t.current_seconds == 0
            &&& !t.loop_enabled
            &&& tick_step(t).1.sound == Sound::Siren
            &&& tick_step(t).0.current_seconds == t.initial_seconds
            &&& tick_step(t).1.shown_time == Some(t.initial_seconds)
        },
{
}

/// The times shown by a countdown: running at `c` seconds with no break
/// pending, the `i`-th tick shows `c - i`, the number it announces.
pub proof fn lemma_countdown_shows_each_second(t: BasketTimer, i: nat)
    requires
        t.state == TimerState::Running,
        t.break_remaining == 0,
        i < t.current_seconds,
    ensures
        tick_step(run(t, i)).1.shown_time == Some((t.current_seconds - i) as u32),
        tick_step(run(t, i)).1.sound == Sound::Number((t.current_seconds - i) as u32),
{
    lemma_countdown(t, i);
}

/// A timer built from any settings waits for start: every tick leaves it as
/// it is and plays nothing.
pub proof fn lemma_built_timer_waits_for_start(s: AppSettings, k: nat)
    ensures
        run(configured(fresh_timer(), s), k) == configured(fresh_timer(), s),
        sounds(configured(fresh_timer(), s), k) == silence(k),
    decreases k,
{
    let t = configured(fresh_timer(), s);
    if k == 0 {
        assert(sounds(t, 0) =~= silence(0));
    } else {
        lemma_idle_tick(t);
        lemma_built_timer_waits_for_start(s, (k - 1) as nat);
        assert(sounds(t, k) =~= silence(k));
    }
}

impl BasketTimer {
    /// One tick of the clock (once a second): updates the timer, its pending
    /// break included, and says what to show and play.
    pub fn tick(&mut self) -> (out: TickOutput)
        ensures
            (*final(self), out) == tick_step(*old(self)),
            out.shown_time matches Some(x) ==> (x == old(self).current_seconds || x
                == final(self).current_seconds),
            out.sound matches Sound::Number(n) ==> (out.shown_time == Some(n) && n
                == old(self).current_seconds && final(self).current_seconds == n - 1),
            old(self).state == TimerState::Running && final(self).state == TimerState::Stopped ==> (
            out.sound == Sound::Siren && final(self).current_seconds == old(self).initial_seconds
                && out.shown_time == Some(old(self).initial_seconds)),
    {
        proof {
            lemma_shown_time_is_the_timers(*self);
            lemma_announced_number_is_shown(*self);
            lemma_stop_shows_start(*self);
        }
        if self.break_remaining > 0 {
            let left: u32 = self.break_remaining - 1;
            self.break_remaining = left;
            if left == 0 {
                self.current_seconds = self.initial_seconds;
                self.state = TimerState::Running;
                return TickOutput {
                    shown_time: None,
                    shown_state: Some(TimerState::Running),
                    sound: Sound::Silent,
                    idle: false,
                };
            }
            return TickOutput {
                shown_time: None,
                shown_state: Some(TimerState::OnBreak),
                sound: Sound::Silent,
                idle: false,
            };
        }
        match self.state {
            TimerState::Running => {
                let secs: u32 = self.current_seconds;
                if secs > 0 {
                    self.current_seconds = secs - 1;
                    TickOutput {
                        shown_time: Some(secs),
                        shown_state: None,
                        sound: Sound::Number(secs),
                        idle: false,
                    }
                } else if self.loop_enabled {
                    if self.break_duration == 0 {
                        self.current_seconds = self.initial_seconds;
                        TickOutput {
                            shown_time: Some(0),
                            shown_state: None,
                            sound: Sound::Siren,
                            idle: false,
                        }
                    } else {
                        self.state = TimerState::OnBreak;
                        self.break_remaining = self.break_duration;
                        TickOutput {
                            shown_time: Some(0),
                            shown_state: Some(TimerState::OnBreak),
                            sound: Sound::Siren,
                            idle: false,
                        }
                    }
                } else {
                    self.current_seconds = self.initial_seconds;
                    self.state = TimerState::Stopped;
                    TickOutput {
                        shown_time: Some(self.initial_seconds),
                        shown_state: Some(TimerState::Stopped),
                        sound: Sound::Siren,
                        idle: false,
                    }
                }
            },
            TimerState::Paused => TickOutput {
                shown_time: None,
                shown_state: Some(TimerState::Paused),
                sound: Sound::Silent,
                idle: true,
            },
            TimerState::Stopped => TickOutput {
                shown_time: None,
                shown_state: Some(TimerState::Stopped),
                sound: Sound::Silent,
                idle: true,
            },
            TimerState::OnBreak => TickOutput {
                shown_time: None,
                shown_state: None,
                sound: Sound::Silent,
                idle: true,
            },
        }
    }
}

} // verus!
