use pomodoro::app::{Alert, App, Notice, Outcome, Phase};
use pomodoro::cli::Cli;
use pomodoro::events::{command_for, Command, Input, TICK_RATE_MS};
use pomodoro::text::push_decimal;
use pomodoro::theme::{accent, highlight, muted, GREEN, LAVENDER, OVERLAY0, OVERLAY1, RED, TEAL};
use pomodoro::ui::{bar_cells, card_fits, clock_text, footer_segments, glyph, timer_rows, timer_x};

fn with(long_after: u32, notify: bool) -> App {
    let mut cli = Cli::default();
    cli.long_after = long_after;
    cli.no_notify = !notify;
    App::new(&cli)
}

fn run_out(a: &mut App) -> Option<Alert> {
    a.remaining = TICK_RATE_MS;
    a.tick()
}

#[test]
fn defaults_are_the_classic_rhythm() {
    let cli = Cli::default();
    assert_eq!((cli.work, cli.short, cli.long, cli.long_after, cli.no_notify), (25, 5, 15, 4, false));
    let a = App::new(&cli);
    assert_eq!(a.work, 1_500_000);
    assert_eq!(a.short, 300_000);
    assert_eq!(a.long, 900_000);
    assert_eq!(a.remaining, a.work);
    assert_eq!(a.total, a.work);
    assert!(a.notify);
    assert!(!a.paused);
}

#[test]
fn zero_long_after_becomes_one() {
    let mut a = with(0, false);
    assert_eq!(a.long_after, 1);
    run_out(&mut a);
    assert_eq!(a.phase, Phase::LongBreak);
}

#[test]
fn every_focus_leads_to_long_break_when_long_after_is_one() {
    let mut a = with(1, false);
    for cycle in 0..3 {
        assert_eq!(a.cycle, cycle);
        run_out(&mut a);
        assert_eq!(a.phase, Phase::LongBreak);
        run_out(&mut a);
        assert_eq!(a.phase, Phase::Focus);
    }
    assert_eq!(a.sessions_done, 3);
}

#[test]
fn zero_long_after_set_by_hand_never_gives_a_long_break() {
    let mut a = with(4, false);
    a.long_after = 0;
    for _ in 0..5 {
        run_out(&mut a);
        assert_eq!(a.phase, Phase::ShortBreak);
        run_out(&mut a);
    }
}

#[test]
fn alerts_name_what_begins() {
    let mut a = with(2, true);
    assert_eq!(run_out(&mut a), Some(Alert { notice: Notice::ShortBreakStarts, desktop: true }));
    assert_eq!(run_out(&mut a), Some(Alert { notice: Notice::BreakOver, desktop: true }));
    assert_eq!(run_out(&mut a), Some(Alert { notice: Notice::LongBreakStarts, desktop: true }));
    assert_eq!(run_out(&mut a), Some(Alert { notice: Notice::LongBreakOver, desktop: true }));
    assert_eq!(a.cycle, 1);
}

#[test]
fn alerts_skip_desktop_when_disabled() {
    let mut a = with(4, false);
    let alert = run_out(&mut a).unwrap();
    assert!(!alert.desktop);
    assert_eq!(alert.notice.summary(), "Pomodoro complete!");
    assert_eq!(alert.notice.body(), "Time for a short break.");
    assert_eq!(Notice::LongBreakStarts.body(), "Time for a long break — you earned it.");
    assert_eq!(Notice::BreakOver.summary(), "Break over");
    assert_eq!(Notice::LongBreakOver.body(), "New cycle. Back to focus.");
}

#[test]
fn tick_without_completion_alerts_nothing() {
    let mut a = with(4, true);
    assert_eq!(a.tick(), None);
    a.paused = true;
    a.remaining = 50;
    assert_eq!(a.tick(), None);
    assert_eq!(a.remaining, 50);
}

#[test]
fn short_remaining_saturates_and_completes() {
    let mut a = with(4, false);
    a.remaining = 30;
    assert!(a.tick().is_some());
    assert_eq!(a.phase, Phase::ShortBreak);
    assert_eq!(a.remaining, a.short);
    assert_eq!(a.total, a.short);
}

#[test]
fn toggle_pause_twice_restores() {
    let mut a = with(4, false);
    a.toggle_pause();
    assert!(a.paused);
    a.toggle_pause();
    assert!(!a.paused);
}

#[test]
fn reset_twice_is_reset_once() {
    let mut a = with(4, false);
    run_out(&mut a);
    a.remaining = 7;
    a.reset();
    let once = a;
    a.reset();
    assert_eq!(a, once);
    assert_eq!(a.remaining, a.short);
    assert_eq!(a.phase, Phase::ShortBreak);
}

#[test]
fn skip_agrees_with_completion_on_the_next_phase() {
    let mut a = with(2, false);
    a.cycle_done = 1;
    let mut b = a;
    a.skip();
    run_out(&mut b);
    assert_eq!(a.phase, Phase::LongBreak);
    assert_eq!(b.phase, Phase::LongBreak);
    assert_eq!(a.cycle_done, 1);
    assert_eq!(b.cycle_done, 2);
    assert_eq!(a.sessions_done, 0);
    assert_eq!(b.sessions_done, 1);
}

#[test]
fn skipping_the_long_break_keeps_the_cycle() {
    let mut a = with(1, false);
    a.skip();
    assert_eq!(a.phase, Phase::LongBreak);
    a.skip();
    assert_eq!(a.phase, Phase::Focus);
    assert_eq!(a.cycle, 0);
    assert_eq!(a.cycle_done, 0);
}

#[test]
fn time_left_rounds_up_to_whole_seconds() {
    let mut a = with(4, false);
    assert_eq!(a.time_left(), (25, 0));
    a.remaining = 1;
    assert_eq!(a.time_left(), (0, 1));
    a.remaining = 59_001;
    assert_eq!(a.time_left(), (1, 0));
    a.remaining = 61_000;
    assert_eq!(a.time_left(), (1, 1));
    a.remaining = 0;
    assert_eq!(a.time_left(), (0, 0));
}

#[test]
fn keys_are_bound_as_the_footer_says() {
    for c in ['q', 'Q'] {
        assert_eq!(command_for(c, false), Some(Command::Quit));
    }
    assert_eq!(command_for('c', true), Some(Command::Quit));
    assert_eq!(command_for('c', false), None);
    assert_eq!(command_for(' ', false), Some(Command::TogglePause));
    for c in ['s', 'n', 'S', 'N'] {
        assert_eq!(command_for(c, false), Some(Command::Skip));
    }
    assert_eq!(command_for('r', true), Some(Command::Reset));
    assert_eq!(command_for('R', false), Some(Command::Reset));
    assert_eq!(command_for('x', false), None);
}

#[test]
fn handle_runs_inputs() {
    let mut a = with(4, true);
    assert_eq!(a.handle(Input::Key { code: ' ', control: false }), Outcome::Continue);
    assert!(a.paused);
    assert_eq!(a.handle(Input::Tick), Outcome::Continue);
    assert_eq!(a.remaining, a.work);
    assert_eq!(a.handle(Input::Key { code: 'r', control: false }), Outcome::Continue);
    assert!(!a.paused);
    a.remaining = TICK_RATE_MS;
    assert_eq!(
        a.handle(Input::Tick),
        Outcome::Alert(Alert { notice: Notice::ShortBreakStarts, desktop: true })
    );
    assert_eq!(a.handle(Input::Key { code: 'n', control: false }), Outcome::Continue);
    assert_eq!(a.phase, Phase::Focus);
    let before = a;
    assert_eq!(a.handle(Input::Key { code: 'q', control: false }), Outcome::Quit);
    assert_eq!(a.handle(Input::Key { code: 'z', control: true }), Outcome::Continue);
    assert_eq!(a, before);
}

#[test]
fn decimal_digits() {
    let mut s = String::from("n=");
    push_decimal(&mut s, 0);
    push_decimal(&mut s, 9);
    push_decimal(&mut s, 10);
    push_decimal(&mut s, 4_294_967_296);
    assert_eq!(s, "n=09104294967296");
}

#[test]
fn clock_text_pads_to_two_digits() {
    assert_eq!(clock_text(25, 0), "25:00");
    assert_eq!(clock_text(4, 9), "04:09");
    assert_eq!(clock_text(120, 59), "120:59");
}

#[test]
fn glyphs_and_rows() {
    assert_eq!(glyph('7'), ["███", "  █", "  █", "  █", "  █"]);
    assert_eq!(glyph(':'), ["   ", " █ ", "   ", " █ ", "   "]);
    assert_eq!(glyph('x'), glyph(':'));
    let rows = timer_rows("1:0");
    assert_eq!(rows.len(), 5);
    assert_eq!(rows[0], " █      ███");
    assert_eq!(rows[1], "██   █  █ █");
    assert_eq!(rows[4], " █      ███");
    assert!(timer_rows("").iter().all(|r| r.is_empty()));
}

#[test]
fn stats_line_names_what_comes_next() {
    let mut a = with(4, false);
    assert_eq!(a.stats_line(), "Pomodoros: 0  ·  Cycle: 1  ·  Next: Short Break");
    a.cycle_done = 3;
    a.sessions_done = 11;
    a.cycle = 2;
    assert_eq!(a.stats_line(), "Pomodoros: 11  ·  Cycle: 3  ·  Next: Long Break");
    a.skip();
    assert_eq!(a.stats_line(), "Pomodoros: 11  ·  Cycle: 3  ·  Next: Focus Session");
}

#[test]
fn cycle_marks_fill_done_sessions() {
    let mut a = with(4, false);
    a.cycle_done = 2;
    assert_eq!(a.cycle_marks(), vec![true, true, false, false]);
    a.long_after = 0;
    assert!(a.cycle_marks().is_empty());
}

#[test]
fn badges_of_breaks() {
    let mut a = with(1, false);
    a.paused = true;
    assert_eq!(a.pause_marker(), " ⏸");
    a.skip();
    assert_eq!(a.badge(), "🌴 LONG BREAK");
    assert_eq!(a.pause_marker(), "");
    a.cycle_done = 41;
    a.skip();
    assert_eq!(a.badge(), "⚡ FOCUS SESSION #42");
}

#[test]
fn card_needs_room() {
    assert!(card_fits(42, 18));
    assert!(!card_fits(41, 100));
    assert!(!card_fits(100, 17));
}

#[test]
fn colours() {
    assert_eq!(accent(Phase::Focus), RED);
    assert_eq!(accent(Phase::ShortBreak), GREEN);
    assert_eq!(accent(Phase::LongBreak), TEAL);
    assert_eq!(RED, 0xf38ba8);
    assert_eq!(muted(true), OVERLAY1);
    assert_eq!(muted(false), OVERLAY0);
    assert_eq!(Phase::ShortBreak.label(), "Short Break");
}

#[test]
fn bar_cells_fill_from_the_left() {
    assert_eq!(bar_cells(5, 2, 3), vec!["█", "█", "▍", " ", " "]);
    assert_eq!(bar_cells(3, 3, 0), vec!["█", "█", "█"]);
    assert_eq!(bar_cells(3, 0, 12), vec!["█", " ", " "]);
    assert_eq!(bar_cells(0, 0, 0), Vec::<&str>::new());
}

#[test]
fn highlight_is_accent_unless_paused() {
    assert_eq!(highlight(Phase::Focus, false), RED);
    assert_eq!(highlight(Phase::LongBreak, false), TEAL);
    assert_eq!(highlight(Phase::ShortBreak, true), OVERLAY1);
}

#[test]
fn timer_is_centred() {
    assert_eq!(timer_x(10, 54, 19), 27);
    assert_eq!(timer_x(10, 20, 20), 10);
    assert_eq!(timer_x(3, 10, 19), 3);
}

#[test]
fn footer_lists_the_bound_keys() {
    let segs = footer_segments(OVERLAY0);
    assert_eq!(segs.len(), 19);
    let text: String = segs.iter().map(|s| s.0).collect();
    assert_eq!(text, "[Space] Pause/Resume   [s] Skip   [r] Reset   [q] Quit");
    assert_eq!(segs[1], ("Space", LAVENDER, true));
    assert_eq!(segs[3], (" Pause/Resume", OVERLAY1, false));
    assert_eq!(segs[4], ("   ", OVERLAY0, false));
    assert_eq!(command_for(' ', false), Some(Command::TogglePause));
    assert_eq!(command_for('q', false), Some(Command::Quit));
}

#[test]
fn ticking_a_phase_out_completes_it_once() {
    let mut a = with(4, true);
    a.remaining = 250;
    assert_eq!(a.tick(), None);
    assert_eq!(a.remaining, 150);
    assert_eq!(a.tick(), None);
    assert_eq!(a.remaining, 50);
    assert!(a.tick().is_some());
    assert_eq!(a.phase, Phase::ShortBreak);
    assert_eq!(a.remaining, a.total);
    assert_eq!(a.tick(), None);
    assert_eq!(a.phase, Phase::ShortBreak);
}

#[test]
fn zero_length_phase_completes_on_next_tick() {
    let mut cli = Cli::default();
    cli.short = 0;
    let mut a = App::new(&cli);
    a.remaining = TICK_RATE_MS;
    assert!(a.tick().is_some());
    assert_eq!(a.phase, Phase::ShortBreak);
    assert_eq!(a.remaining, 0);
    assert!(a.tick().is_some());
    assert_eq!(a.phase, Phase::Focus);
}
