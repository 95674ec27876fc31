use vstd::prelude::*;

use crate::cli::Cli;
use crate::events::{binding, command_for, Command, Input};
use crate::text::{decimal, push_decimal};

verus! {

/// The three phases of the Pomodoro rhythm.
#[derive(Debug, Clone, Copy, PartialEq, Eq, Structural)]
pub enum Phase {
    Focus,
    ShortBreak,
    LongBreak,
}

/// The icon shown in front of a phase's name.
pub open spec fn icon_text(phase: Phase) -> Seq<char> {
    match phase {
        Phase::Focus => "⚡"@,
        Phase::ShortBreak => "☕"@,
        Phase::LongBreak => "🌴"@,
    }
}

/// The upper-case name of a phase, as the card's title shows it.
pub open spec fn name_text(phase: Phase) -> Seq<char> {
    match phase {
        Phase::Focus => "FOCUS SESSION"@,
        Phase::ShortBreak => "SHORT BREAK"@,
        Phase::LongBreak => "LONG BREAK"@,
    }
}

impl Phase {
    pub fn icon(self) -> (s: &'static str)
        ensures
            s@ == icon_text(self),
    {
        match self {
            Phase::Focus => "⚡",
            Phase::ShortBreak => "☕",
            Phase::LongBreak => "🌴",
        }
    }

    pub fn name(self) -> (s: &'static str)
        ensures
            s@ == name_text(self),
    {
        match self {
            Phase::Focus => "FOCUS SESSION",
            Phase::ShortBreak => "SHORT BREAK",
            Phase::LongBreak => "LONG BREAK",
        }
    }
}


/// Whether `n` is a multiple of `d`; only zero is a multiple of zero.
pub open spec fn is_multiple_of(n: int, d: int) -> bool {
    if d == 0 {
        n == 0
    } else {
        n % d == 0
    }
}

fn multiple_of(n: u32, d: u32) -> (b: bool)
    ensures
        b == is_multiple_of(n as int, d as int),
{
    if d == 0 {
        n == 0
    } else {
        n % d == 0
    }
}

/// What the user is told when a phase runs out.
#[derive(Debug, Clone, Copy, PartialEq, Eq, Structural)]
pub enum Notice {
    /// A focus session ended and a short break begins.
    ShortBreakStarts,
    /// A focus session ended and the long break begins.
    LongBreakStarts,
    /// A short break ended.
    BreakOver,
    /// The long break ended and a new cycle begins.
    LongBreakOver,
}

pub open spec fn summary_text(notice: Notice) -> Seq<char> {
    match notice {
        Notice::ShortBreakStarts => "Pomodoro complete!"@,
        Notice::LongBreakStarts => "Pomodoro complete!"@,
        Notice::BreakOver => "Break over"@,
        Notice::LongBreakOver => "Long break over"@,
    }
}

pub open spec fn body_text(notice: Notice) -> Seq<char> {
    match notice {
        Notice::ShortBreakStarts => "Time for a short break."@,
        Notice::LongBreakStarts => "Time for a long break — you earned it."@,
        Notice::BreakOver => "Back to focus. You've got this."@,
        Notice::LongBreakOver => "New cycle. Back to focus."@,
    }
}

impl Notice {
    /// The notification's headline.
    pub fn summary(self) -> (s: &'static str)
        ensures
            s@ == summary_text(self),
    {
        match self {
            Notice::ShortBreakStarts => "Pomodoro complete!",
            Notice::LongBreakStarts => "Pomodoro complete!",
            Notice::BreakOver => "Break over",
            Notice::LongBreakOver => "Long break over",
        }
    }

    /// The notification's text.
    pub fn body(self) -> (s: &'static str)
        ensures
            s@ == body_text(self),
    {
        match self {
            Notice::ShortBreakStarts => "Time for a short break.",
            Notice::LongBreakStarts => "Time for a long break — you earned it.",
            Notice::BreakOver => "Back to focus. You've got this.",
            Notice::LongBreakOver => "New cycle. Back to focus.",
        }
    }
}

/// What happens when a phase runs out: the terminal bell always rings, and a
/// desktop notification is shown when `desktop` holds.
#[derive(Debug, Clone, Copy, PartialEq, Eq, Structural)]
pub struct Alert {
    pub notice: Notice,
    pub desktop: bool,
}

/// The state of the timer. Durations are in milliseconds.
#[derive(Debug, Clone, Copy, PartialEq, Eq, Structural)]
pub struct App {
    pub phase: Phase,
    /// Focus sessions completed so far.
    pub sessions_done: u32,
    /// Long breaks completed so far.
    pub cycle: u32,
    /// Focus sessions completed in the current cycle.
    pub cycle_done: u32,
    /// Time left in the current phase.
    pub remaining: u128,
    /// Full length of the current phase.
    pub total: u128,
    pub paused: bool,
    /// Number of focus sessions before a long break.
    pub long_after: u32,
    /// Length of a focus session.
    pub work: u128,
    /// Length of a short break.
    pub short: u128,
    /// Length of the long break.
    pub long: u128,
    /// Whether desktop notifications are shown.
    pub notify: bool,
}

/// Milliseconds in `minutes` minutes.
pub open spec fn minutes_ms(minutes: u64) -> u128 {
    (minutes * 60 * 1000) as u128
}

fn minutes_to_ms(minutes: u64) -> (ms: u128)
    requires
        minutes * 60 <= u64::MAX,
    ensures
        ms == minutes_ms(minutes),
{
    let secs: u64 = minutes * 60;
    (secs as u128) * 1000
}

impl App {
    /// The length of a phase under this timer's settings.
    pub open spec fn duration_of(self, phase: Phase) -> u128 {
        match phase {
            Phase::Focus => self.work,
            Phase::ShortBreak => self.short,
            Phase::LongBreak => self.long,
        }
    }

    /// The phase that follows the current one: after a focus session, the
    /// long break when the cycle's sessions (counting this one) are a multiple
    /// of `long_after`, else a short break; after any break, focus.
    pub open spec fn following_phase(self) -> Phase {
        match self.phase {
            Phase::Focus => if is_multiple_of(self.cycle_done + 1, self.long_after as int) {
                Phase::LongBreak
            } else {
                Phase::ShortBreak
            },
            _ => Phase::Focus,
        }
    }

    /// The state after entering `phase` afresh: its full length left, running.
    pub open spec fn entering(self, phase: Phase) -> App {
        App {
            phase,
            total: self.duration_of(phase),
            remaining: self.duration_of(phase),
            paused: false,
            ..self
        }
    }

    /// The counters can take the step that completing the current phase makes.
    pub open spec fn can_complete(self) -> bool {
        match self.phase {
            Phase::Focus => self.sessions_done < u32::MAX && self.cycle_done < u32::MAX,
            Phase::ShortBreak => true,
            Phase::LongBreak => self.cycle < u32::MAX,
        }
    }

    /// The state after the current phase ran out. A focus session is credited
    /// to the session and cycle counters; the long break closes the cycle.
    pub open spec fn completed(self) -> App {
        match self.phase {
            Phase::Focus => App {
                sessions_done: (self.sessions_done + 1) as u32,
                cycle_done: (self.cycle_done + 1) as u32,
                ..self
            }.entering(self.following_phase()),
            Phase::ShortBreak => self.entering(Phase::Focus),
            Phase::LongBreak => App { cycle: (self.cycle + 1) as u32, cycle_done: 0, ..self }.entering(
                Phase::Focus,
            ),
        }
    }

    /// What the user is told when the current phase runs out.
    pub open spec fn completion_notice(self) -> Notice {
        match self.phase {
            Phase::Focus => if self.following_phase() == Phase::LongBreak {
                Notice::LongBreakStarts
            } else {
                Notice::ShortBreakStarts
            },
            Phase::ShortBreak => Notice::BreakOver,
            Phase::LongBreak => Notice::LongBreakOver,
        }
    }

    /// The alert raised when the current phase runs out.
    pub open spec fn completion_alert(self) -> Alert {
        Alert { notice: self.completion_notice(), desktop: self.notify }
    }

    /// The next tick runs the current phase out.
    pub open spec fn completes_on_tick(self) -> bool {
        !self.paused && self.remaining <= crate::events::TICK_RATE_MS
    }

    /// The state after one tick of the clock: nothing changes while paused;
    /// otherwise a tick's worth of time is taken off, and the phase completes
    /// when no time is left.
    pub open spec fn ticked(self) -> App {
        if self.paused {
            self
        } else if self.remaining <= crate::events::TICK_RATE_MS {
            self.completed()
        } else {
            App { remaining: (self.remaining - crate::events::TICK_RATE_MS) as u128, ..self }
        }
    }

    /// The state after skipping the current phase: the following phase is
    /// entered, and no counter is credited.
    pub open spec fn skipped(self) -> App {
        self.entering(self.following_phase())
    }

    /// The state after a reset: the current phase starts over, running.
    pub open spec fn restarted(self) -> App {
        App { remaining: self.duration_of(self.phase), paused: false, ..self }
    }

    /// The state after pause is toggled.
    pub open spec fn toggled(self) -> App {
        App { paused: !self.paused, ..self }
    }

    /// The phase's full length is its configured length, and no more than
    /// that is left of it.
    pub open spec fn well_formed(self) -> bool {
        &&& self.total == self.duration_of(self.phase)
        &&& self.remaining <= self.total
    }

    /// A timer at the start of a focus session with the given settings.
    pub fn new(cli: &Cli) -> (app: App)
        requires
            cli.work * 60 <= u64::MAX,
            cli.short * 60 <= u64::MAX,
            cli.long * 60 <= u64::MAX,
        ensures
            app.phase == Phase::Focus,
            app.sessions_done == 0,
            app.cycle == 0,
            app.cycle_done == 0,
            app.work == minutes_ms(cli.work),
            app.short == minutes_ms(cli.short),
            app.long == minutes_ms(cli.long),
            app.remaining == app.work,
            app.total == app.work,
            !app.paused,
            app.long_after == if cli.long_after == 0 { 1 } else { cli.long_after },
            app.notify == !cli.no_notify,
            app.well_formed(),
    {
        let work = minutes_to_ms(cli.work);
        let short = minutes_to_ms(cli.short);
        let long = minutes_to_ms(cli.long);
        let long_after = if cli.long_after == 0 { 1 } else { cli.long_after };
        App {
            phase: Phase::Focus,
            sessions_done: 0,
            cycle: 0,
            cycle_done: 0,
            remaining: work,
            total: work,
            paused: false,
            long_after,
            work,
            short,
            long,
            notify: !cli.no_notify,
        }
    }

    /// The length of `phase` under this timer's settings.
    fn duration_for(&self, phase: Phase) -> (d: u128)
        ensures
            d == self.duration_of(phase),
    {
        match phase {
            Phase::Focus => self.work,
            Phase::ShortBreak => self.short,
            Phase::LongBreak => self.long,
        }
    }

    /// The phase that follows the current one.
    pub fn next_phase(&self) -> (p: Phase)
        requires
            self.phase == Phase::Focus ==> self.cycle_done < u32::MAX,
        ensures
            p == self.following_phase(),
    {
        match self.phase {
            Phase::Focus => if multiple_of(self.cycle_done + 1, self.long_after) {
                Phase::LongBreak
            } else {
                Phase::ShortBreak
            },
            _ => Phase::Focus,
        }
    }

    /// Advances the clock by one tick, and reports the alert when the phase
    /// ran out.
    pub fn tick(&mut self) -> (alert: Option<Alert>)
        requires
            old(self).completes_on_tick() ==> old(self).can_complete(),
        ensures
            *final(self) == old(self).ticked(),
            alert == (if old(self).completes_on_tick() {
                Some(old(self).completion_alert())
            } else {
                None
            }),
            old(self).well_formed() ==> final(self).well_formed(),
    {
        if self.paused {
            return None;
        }
        self.remaining = self.remaining.saturating_sub(crate::events::TICK_RATE_MS);
        if self.remaining == 0 {
            Some(self.complete_phase())
        } else {
            None
        }
    }

    /// Pauses a running timer, or resumes a paused one.
    pub fn toggle_pause(&mut self)
        ensures
            *final(self) == old(self).toggled(),
            old(self).well_formed() ==> final(self).well_formed(),
    {
        self.paused = !self.paused;
    }

    /// Moves on to the following phase at once, without crediting any
    /// session.
    pub fn skip(&mut self)
        requires
            old(self).phase == Phase::Focus ==> old(self).cycle_done < u32::MAX,
        ensures
            *final(self) == old(self).skipped(),
            final(self).well_formed(),
    {
        self.phase = self.next_phase();
        self.total = self.duration_for(self.phase);
        self.remaining = self.total;
        self.paused = false;
    }

    /// Starts the current phase over.
    pub fn reset(&mut self)
        ensures
            *final(self) == old(self).restarted(),
            old(self).well_formed() ==> final(self).well_formed(),
    {
        self.remaining = self.duration_for(self.phase);
        self.paused = false;
    }

    fn complete_phase(&mut self) -> (alert: Alert)
        requires
            old(self).can_complete(),
        ensures
            *final(self) == old(self).completed(),
            alert == old(self).completion_alert(),
    {
        let notice = match self.phase {
            Phase::Focus => {
                self.sessions_done = self.sessions_done + 1;
                self.cycle_done = self.cycle_done + 1;
                let long_break = multiple_of(self.cycle_done, self.long_after);
                self.phase = if long_break {
                    Phase::LongBreak
                } else {
                    Phase::ShortBreak
                };
                if long_break {
                    Notice::LongBreakStarts
                } else {
                    Notice::ShortBreakStarts
                }
            },
            Phase::ShortBreak => {
                self.phase = Phase::Focus;
                Notice::BreakOver
            },
            Phase::LongBreak => {
                self.cycle = self.cycle + 1;
                self.cycle_done = 0;
                self.phase = Phase::Focus;
                Notice::LongBreakOver
            },
        };
        self.total = self.duration_for(self.phase);
        self.remaining = self.total;
        self.paused = false;
        Alert { notice, desktop: self.notify }
    }
}


/// What the timer reports after an input.
#[derive(Debug, Clone, Copy, PartialEq, Eq, Structural)]
pub enum Outcome {
    /// Keep running.
    Continue,
    /// Keep running; the phase ran out and the user is to be alerted.
    Alert(Alert),
    /// The user asked to quit.
    Quit,
}

/// The card's title for a state: the phase's icon and name, and for a focus
/// session the number of the session within the cycle.
pub open spec fn badge_text(app: App) -> Seq<char> {
    match app.phase {
        Phase::Focus => icon_text(app.phase) + " "@ + name_text(app.phase) + " #"@ + decimal(
            (app.cycle_done + 1) as nat,
        ),
        _ => icon_text(app.phase) + " "@ + name_text(app.phase),
    }
}

impl App {
    /// Whole seconds left in the phase, a started second counting as whole,
    /// taken as a `u64`.
    pub open spec fn seconds_left(self) -> u64 {
        ((self.remaining / 1000) + if self.remaining % 1000 == 0 {
            0int
        } else {
            1int
        }) as u64
    }

    /// The input can be handled without a counter overflowing.
    pub open spec fn accepts(self, input: Input) -> bool {
        match input {
            Input::Tick => self.completes_on_tick() ==> self.can_complete(),
            Input::Key { code, control } => binding(code, control) == Some(Command::Skip)
                ==> (self.phase == Phase::Focus ==> self.cycle_done < u32::MAX),
        }
    }

    /// The state after an input.
    pub open spec fn after_input(self, input: Input) -> App {
        match input {
            Input::Tick => self.ticked(),
            Input::Key { code, control } => match binding(code, control) {
                Some(Command::TogglePause) => self.toggled(),
                Some(Command::Skip) => self.skipped(),
                Some(Command::Reset) => self.restarted(),
                _ => self,
            },
        }
    }

    /// What is reported after an input.
    pub open spec fn outcome_of(self, input: Input) -> Outcome {
        match input {
            Input::Tick => if self.completes_on_tick() {
                Outcome::Alert(self.completion_alert())
            } else {
                Outcome::Continue
            },
            Input::Key { code, control } => if binding(code, control) == Some(Command::Quit) {
                Outcome::Quit
            } else {
                Outcome::Continue
            },
        }
    }

    /// The card's title.
    pub fn badge(&self) -> (s: String)
        requires
            self.phase == Phase::Focus ==> self.cycle_done < u32::MAX,
        ensures
            s@ == badge_text(*self),
    {
        let mut s = String::from_str(self.phase.icon());
        s.append(" ");
        s.append(self.phase.name());
        proof {
            reveal_strlit(" ");
        }
        match self.phase {
            Phase::Focus => {
                s.append(" #");
                push_decimal(&mut s, (self.cycle_done + 1) as u64);
                proof {
                    reveal_strlit(" #");
                }
            },
            _ => {},
        }
        proof {
            assert(s@ =~= badge_text(*self));
        }
        s
    }

    /// The time left as minutes and seconds.
    pub fn time_left(&self) -> (mmss: (u64, u64))
        ensures
            mmss.0 == self.seconds_left() / 60,
            mmss.1 == self.seconds_left() % 60,
    {
        let rounded_up: u128 = self.remaining / 1000 + if self.remaining % 1000 == 0 {
            0
        } else {
            1
        };
        let secs = rounded_up as u64;
        (secs / 60, secs % 60)
    }

    /// Whether `handle` can take this input without a counter overflowing.
    pub fn can_handle(&self, input: Input) -> (ok: bool)
        ensures
            ok == self.accepts(input),
    {
        match input {
            Input::Tick => {
                let completes = !self.paused && self.remaining <= crate::events::TICK_RATE_MS;
                !completes || match self.phase {
                    Phase::Focus => self.sessions_done < u32::MAX && self.cycle_done < u32::MAX,
                    Phase::ShortBreak => true,
                    Phase::LongBreak => self.cycle < u32::MAX,
                }
            },
            Input::Key { code, control } => {
                let skips = match command_for(code, control) {
                    Some(Command::Skip) => true,
                    _ => false,
                };
                !skips || self.phase != Phase::Focus || self.cycle_done < u32::MAX
            },
        }
    }

    /// Handles one input: a tick advances the clock, a bound key runs its
    /// command, other keys change nothing.
    pub fn handle(&mut self, input: Input) -> (outcome: Outcome)
        requires
            old(self).accepts(input),
        ensures
            *final(self) == old(self).after_input(input),
            outcome == old(self).outcome_of(input),
            old(self).well_formed() ==> final(self).well_formed(),
    {
        match input {
            Input::Tick => match self.tick() {
                Some(alert) => Outcome::Alert(alert),
                None => Outcome::Continue,
            },
            Input::Key { code, control } => match command_for(code, control) {
                Some(Command::Quit) => Outcome::Quit,
                Some(Command::TogglePause) => {
                    self.toggle_pause();
                    Outcome::Continue
                },
                Some(Command::Skip) => {
                    self.skip();
                    Outcome::Continue
                },
                Some(Command::Reset) => {
                    self.reset();
                    Outcome::Continue
                },
                None => Outcome::Continue,
            },
        }
    }
}

} // verus!
