use std::time::Duration;

use pomodoro::app::{App, Phase};
use pomodoro::cli::Cli;
use pomodoro::events::TICK_RATE_MS;

const TICK_RATE: Duration = Duration::from_millis(TICK_RATE_MS as u64);

fn app() -> App {
    let mut cli = Cli::default();
    cli.no_notify = true;
    App::new(&cli)
}

fn ms(d: Duration) -> u128 {
    d.as_millis()
}

fn finish_phase(a: &mut App) {
    a.remaining = ms(TICK_RATE);
    a.tick();
}

#[test]
fn ticks_down_incrementally() {
    let mut a = app();
    a.tick();
    assert_eq!(a.remaining, ms(Duration::from_secs(25 * 60) - TICK_RATE));
    assert_eq!(a.phase, Phase::Focus);
}

#[test]
fn paused_does_not_tick() {
    let mut a = app();
    a.paused = true;
    let before = a.remaining;
    a.tick();
    assert_eq!(a.remaining, before);
}

#[test]
fn completion_advances_to_short_break() {
    let mut a = app();
    finish_phase(&mut a);
    assert_eq!(a.phase, Phase::ShortBreak);
    assert_eq!(a.cycle_done, 1);
    assert_eq!(a.sessions_done, 1);
    assert_eq!(a.remaining, a.short);
}

#[test]
fn fourth_completion_advances_to_long_break() {
    let mut a = app();
    for _ in 0..3 {
        finish_phase(&mut a);
        finish_phase(&mut a);
    }
    finish_phase(&mut a);
    assert_eq!(a.phase, Phase::LongBreak);
    assert_eq!(a.cycle_done, 4);
}

#[test]
fn long_break_resets_cycle() {
    let mut a = app();
    for _ in 0..4 {
        finish_phase(&mut a);
        finish_phase(&mut a);
    }
    assert_eq!(a.phase, Phase::Focus);
    assert_eq!(a.cycle_done, 0);
    assert_eq!(a.cycle, 1);
    assert_eq!(a.sessions_done, 4);
}

#[test]
fn skip_moves_to_next_phase_without_crediting() {
    let mut a = app();
    a.skip();
    assert_eq!(a.phase, Phase::ShortBreak);
    assert_eq!(a.sessions_done, 0);
    a.skip();
    assert_eq!(a.phase, Phase::Focus);
}

#[test]
fn reset_restores_full_duration() {
    let mut a = app();
    a.remaining = ms(Duration::from_secs(60));
    a.paused = true;
    a.reset();
    assert_eq!(a.remaining, a.work);
    assert!(!a.paused);
}

#[test]
fn badge_shows_focus_session_number() {
    let mut a = app();
    assert_eq!(a.badge(), "⚡ FOCUS SESSION #1");
    finish_phase(&mut a);
    assert_eq!(a.badge(), "☕ SHORT BREAK");
    a.skip();
    assert_eq!(a.badge(), "⚡ FOCUS SESSION #2");
}
