# basket_timer

The logic of a basketball shot clock, verified with Verus.

- `src/timer.rs` — the timer (`BasketTimer`, `TimerState`) and what the controls do to it:
  reset, start/pause, applying settings.
- `src/clock.rs` — the once-a-second transition (`BasketTimer::tick`) and the proofs of
  what it does over many seconds: the spoken countdown, the siren at zero, loop mode.
- `src/settings.rs` — the user's settings, their defaults and the bounds the settings
  panel enforces.
- `src/display.rs` — the `mm:ss` clock face, the labels on screen, the names of the
  recordings.
- `src/keys.rs` — the keyboard shortcuts (Space, P, R, S).
- `app/` — the Dioxus interface, rodio playback and the JSON settings file, around the
  library.
