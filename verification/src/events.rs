//! What reaches the timer from outside: clock ticks and key presses, and the
//! commands the keys are bound to.

use vstd::prelude::*;

verus! {

/// How often the clock ticks, in milliseconds.
pub const TICK_RATE_MS: u128 = 100;

/// An input to the timer.
#[derive(Debug, Clone, Copy, PartialEq, Eq, Structural)]
pub enum Input {
    /// The clock advanced by one tick.
    Tick,
    /// A character key was pressed; `control` tells whether Ctrl was held.
    Key { code: char, control: bool },
}

/// What a key press asks of the timer.
#[derive(Debug, Clone, Copy, PartialEq, Eq, Structural)]
pub enum Command {
    Quit,
    TogglePause,
    Skip,
    Reset,
}

/// The command bound to a character key: `q`/`Q` and Ctrl-`c` quit, space
/// pauses or resumes, `s`/`n` (either case) skip, `r`/`R` reset.
pub open spec fn binding(code: char, control: bool) -> Option<Command> {
    if code == 'q' || code == 'Q' {
        Some(Command::Quit)
    } else if code == 'c' && control {
        Some(Command::Quit)
    } else if code == ' ' {
        Some(Command::TogglePause)
    } else if code == 's' || code == 'n' || code == 'S' || code == 'N' {
        Some(Command::Skip)
    } else if code == 'r' || code == 'R' {
        Some(Command::Reset)
    } else {
        None
    }
}

/// Looks up the command bound to a key; other keys are ignored.
pub fn command_for(code: char, control: bool) -> (cmd: Option<Command>)
    ensures
        cmd == binding(code, control),
{
    if code == 'q' || code == 'Q' {
        Some(Command::Quit)
    } else if code == 'c' && control {
        Some(Command::Quit)
    } else if code == ' ' {
        Some(Command::TogglePause)
    } else if code == 's' || code == 'n' || code == 'S' || code == 'N' {
        Some(Command::Skip)
    } else if code == 'r' || code == 'R' {
        Some(Command::Reset)
    } else {
        None
    }
}

} // verus!
