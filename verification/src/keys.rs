//! Keyboard shortcuts of the desktop version.
use vstd::prelude::*;

verus! {

/// What a shortcut asks for.
#[derive(Clone, Copy, Debug, PartialEq, Eq, Structural)]
pub enum Command {
    /// Start the countdown (Space).
    Start,
    /// Pause the countdown (P).
    Pause,
    /// Reset the timer (R).
    Reset,
    /// Open the settings panel (S).
    OpenSettings,
}

/// The shortcut bound to each key, in either case for letters.
pub open spec fn shortcut(key: char) -> Option<Command> {
    if key == ' ' {
        Some(Command::Start)
    } else if key == 'p' || key == 'P' {
        Some(Command::Pause)
    } else if key == 'r' || key == 'R' {
        Some(Command::Reset)
    } else if key == 's' || key == 'S' {
        Some(Command::OpenSettings)
    } else {
        None
    }
}

/// The command bound to a key, if any.
pub fn command_for_key(key: char) -> (c: Option<Command>)
    ensures
        c == shortcut(key),
{
    if key == ' ' {
        Some(Command::Start)
    } else if key == 'p' || key == 'P' {
        Some(Command::Pause)
    } else if key == 'r' || key == 'R' {
        Some(Command::Reset)
    } else if key == 's' || key == 'S' {
        Some(Command::OpenSettings)
    } else {
        None
    }
}

} // verus!
