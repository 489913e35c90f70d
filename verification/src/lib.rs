//! Shot-clock logic: the countdown timer, the per-second transition that drives it,
//! the user's settings and what the screen shows.
pub mod clock;
pub mod display;
pub mod keys;
pub mod settings;
pub mod timer;
