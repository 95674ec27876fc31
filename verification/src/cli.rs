//! The timer's settings, as the command line gives them.

use vstd::prelude::*;

verus! {

/// The settings of a Pomodoro timer.
#[derive(Debug, Clone, Copy, PartialEq, Eq)]
pub struct Cli {
    /// Work session length in minutes
    pub work: u64,
    /// Short break length in minutes
    pub short: u64,
    /// Long break length in minutes
    pub long: u64,
    /// Number of focus sessions before a long break
    pub long_after: u32,
    /// Disable desktop notifications (the terminal bell still rings)
    pub no_notify: bool,
}

impl Default for Cli {
    /// The settings used when the command line names none: 25-minute focus
    /// sessions, 5-minute short breaks, a 15-minute long break after every
    /// 4 focus sessions, and desktop notifications on.
    fn default() -> (cli: Cli)
        ensures
            cli.work == 25,
            cli.short == 5,
            cli.long == 15,
            cli.long_after == 4,
            !cli.no_notify,
    {
        Cli { work: 25, short: 5, long: 15, long_after: 4, no_notify: false }
    }
}

} // verus!
