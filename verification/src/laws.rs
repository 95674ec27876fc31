//! Properties of the timer that span its operations.

use vstd::prelude::*;

use crate::app::{badge_text, icon_text, name_text, App, Notice, Outcome, Phase};
use crate::events::{binding, Command, Input, TICK_RATE_MS};
use crate::text::{decimal, digit_char, two_digits};
use crate::ui::{clock_string, footer_hints, glyph_rows, label_text, stats_text, timer_row};

verus! {

/// The state after the phase has run out `n` times in a row.
pub open spec fn completed_times(app: App, n: nat) -> App
    decreases n,
{
    if n == 0 {
        app
    } else {
        completed_times(app, (n - 1) as nat).completed()
    }
}

/// While the timer is paused, ticks change nothing.
pub proof fn lemma_paused_tick_changes_nothing(app: App)
    requires
        app.paused,
    ensures
        app.ticked() == app,
{
}

/// A tick that does not run the phase out takes exactly one tick's worth
/// of time off and changes nothing else.
pub proof fn lemma_tick_counts_down(app: App)
    requires
        !app.paused,
        app.remaining > TICK_RATE_MS,
    ensures
        app.ticked().remaining == app.remaining - TICK_RATE_MS,
        app.ticked() == (App { remaining: app.ticked().remaining, ..app }),
{
}

/// Toggling pause twice restores the state.
pub proof fn lemma_toggle_pause_twice(app: App)
    ensures
        app.toggled().toggled() == app,
{
}

/// Resetting twice is the same as resetting once; a reset keeps the phase and
/// the counters, and leaves the timer running with the phase's full length.
pub proof fn lemma_reset(app: App)
    ensures
        app.restarted().restarted() == app.restarted(),
        app.restarted().phase == app.phase,
        app.restarted().sessions_done == app.sessions_done,
        app.restarted().cycle_done == app.cycle_done,
        app.restarted().cycle == app.cycle,
        app.restarted().remaining == app.duration_of(app.phase),
        app.restarted().total == app.total,
        app.restarted().long_after == app.long_after,
        app.restarted().work == app.work,
        app.restarted().short == app.short,
        app.restarted().long == app.long,
        app.restarted().notify == app.notify,
        !app.restarted().paused,
        app.well_formed() ==> app.restarted().remaining == app.total,
        app.skipped().restarted() == app.skipped(),
        app.completed().restarted() == app.completed(),
{
}

/// Skipping enters the same phase that running the phase out would, but
/// credits nothing: a completed focus session counts once for the session
/// and cycle counters, a skipped one not at all.
pub proof fn lemma_skip_credits_nothing(app: App)
    requires
        app.can_complete(),
    ensures
        app.skipped().phase == app.completed().phase,
        app.skipped().sessions_done == app.sessions_done,
        app.skipped().cycle_done == app.cycle_done,
        app.skipped().cycle == app.cycle,
        app.phase == Phase::Focus ==> app.completed().sessions_done == app.sessions_done + 1,
        app.phase == Phase::Focus ==> app.completed().cycle_done == app.cycle_done + 1,
{
}

/// Every break, whether it runs out or is skipped, is followed by focus;
/// every focus session by a break.
pub proof fn lemma_phases_alternate(app: App)
    ensures
        app.phase != Phase::Focus ==> app.skipped().phase == Phase::Focus,
        app.phase != Phase::Focus ==> app.completed().phase == Phase::Focus,
        app.phase == Phase::Focus ==> app.skipped().phase != Phase::Focus,
        app.phase == Phase::Focus ==> app.completed().phase != Phase::Focus,
{
}

/// The notice raised when a phase runs out names the phase that begins.
pub proof fn lemma_notice_names_next_phase(app: App)
    ensures
        app.completion_notice() == Notice::LongBreakStarts <==> app.completed().phase
            == Phase::LongBreak,
        app.completion_notice() == Notice::ShortBreakStarts <==> app.completed().phase
            == Phase::ShortBreak,
        app.phase != Phase::Focus <==> app.completed().phase == Phase::Focus,
{
}

/// Every operation keeps the timer well formed; a new phase is entered with
/// its full length left and the timer running.
pub proof fn lemma_operations_keep_well_formed(app: App)
    requires
        app.well_formed(),
    ensures
        app.ticked().well_formed(),
        app.skipped().well_formed(),
        app.restarted().well_formed(),
        app.toggled().well_formed(),
        app.completed().well_formed(),
        app.completed().remaining == app.completed().total,
        !app.completed().paused,
        app.skipped().remaining == app.skipped().total,
        !app.skipped().paused,
{
}

proof fn lemma_cycle_prefix(app: App, n: nat)
    requires
        app.phase == Phase::Focus,
        app.cycle_done == 0,
        app.long_after >= 1,
        app.sessions_done + app.long_after <= u32::MAX,
        n + 2 <= 2 * app.long_after,
    ensures
        completed_times(app, n).phase == (if n % 2 == 0 {
            Phase::Focus
        } else {
            Phase::ShortBreak
        }),
        completed_times(app, n).cycle_done == (n + 1) / 2,
        completed_times(app, n).sessions_done == app.sessions_done + (n + 1) / 2,
        completed_times(app, n).cycle == app.cycle,
        completed_times(app, n).long_after == app.long_after,
        completed_times(app, n).work == app.work,
        completed_times(app, n).short == app.short,
        completed_times(app, n).long == app.long,
        completed_times(app, n).notify == app.notify,
    decreases n,
{
    if n > 0 {
        let m = (n - 1) as nat;
        lemma_cycle_prefix(app, m);
        let prev = completed_times(app, m);
        if m % 2 == 0 {
            let k = (prev.cycle_done + 1) as nat;
            vstd::arithmetic::div_mod::lemma_small_mod(k, app.long_after as nat);
            assert(!crate::app::is_multiple_of(k as int, app.long_after as int));
        }
    }
}

/// The rhythm of a cycle: starting a cycle with a focus session, focus
/// sessions and short breaks alternate until the `long_after`-th focus
/// session runs out; the long break follows, and when it runs out a new
/// cycle begins with a full focus session, every one of the cycle's
/// sessions credited once.
pub proof fn lemma_cycle_rhythm(app: App)
    requires
        app.phase == Phase::Focus,
        app.cycle_done == 0,
        app.long_after >= 1,
        app.sessions_done + app.long_after <= u32::MAX,
        app.cycle < u32::MAX,
    ensures
        forall|n: nat|
            n + 2 <= 2 * app.long_after ==> (#[trigger] completed_times(app, n)).phase == (if n
                % 2 == 0 {
                Phase::Focus
            } else {
                Phase::ShortBreak
            }) && completed_times(app, n).cycle_done == (n + 1) / 2,
        completed_times(app, (2 * app.long_after - 1) as nat).phase == Phase::LongBreak,
        completed_times(app, (2 * app.long_after - 1) as nat).cycle_done == app.long_after,
        completed_times(app, (2 * app.long_after) as nat).phase == Phase::Focus,
        completed_times(app, (2 * app.long_after) as nat).cycle_done == 0,
        completed_times(app, (2 * app.long_after) as nat).cycle == app.cycle + 1,
        completed_times(app, (2 * app.long_after) as nat).sessions_done == app.sessions_done
            + app.long_after,
        completed_times(app, (2 * app.long_after) as nat).remaining == app.work,
        !completed_times(app, (2 * app.long_after) as nat).paused,
{
    assert forall|n: nat| n + 2 <= 2 * app.long_after implies (#[trigger] completed_times(
        app,
        n,
    )).phase == (if n % 2 == 0 {
        Phase::Focus
    } else {
        Phase::ShortBreak
    }) && completed_times(app, n).cycle_done == (n + 1) / 2 by {
        lemma_cycle_prefix(app, n);
    }
    let last = (2 * app.long_after - 2) as nat;
    lemma_cycle_prefix(app, last);
    let l = app.long_after as int;
    vstd::arithmetic::div_mod::lemma_mod_self_0(l);
    assert(completed_times(app, (last + 1) as nat) == completed_times(app, last).completed());
    assert(completed_times(app, (last + 2) as nat) == completed_times(
        app,
        (last + 1) as nat,
    ).completed());
}


/// The state after `n` ticks of the clock with no other input in between.
pub open spec fn ticked_times(app: App, n: nat) -> App
    decreases n,
{
    if n == 0 {
        app
    } else {
        ticked_times(app, (n - 1) as nat).ticked()
    }
}

/// The tick that runs a phase out completes it, exactly as running the phase
/// out does: the following phase is entered with its full length, running,
/// and the alert for the completion is raised.
pub proof fn lemma_tick_completes(app: App)
    requires
        !app.paused,
        app.remaining <= TICK_RATE_MS,
    ensures
        app.completes_on_tick(),
        app.ticked() == app.completed(),
        app.ticked().remaining == app.ticked().total,
        app.ticked().total == app.ticked().duration_of(app.ticked().phase),
        !app.ticked().paused,
        app.ticked().phase == app.following_phase(),
{
}

/// While a running phase has more than `i` ticks' worth left, `i` ticks take
/// exactly `i` ticks' worth off, change nothing else, and none of them
/// completes the phase or raises an alert.
pub proof fn lemma_ticks_count_down(app: App, i: nat)
    requires
        !app.paused,
        i * TICK_RATE_MS < app.remaining,
    ensures
        ticked_times(app, i) == (App { remaining: (app.remaining - i * TICK_RATE_MS) as u128, ..app }),
        ticked_times(app, i).phase == app.phase,
        (i + 1) * TICK_RATE_MS < app.remaining ==> !ticked_times(app, i).completes_on_tick(),
    decreases i,
{
    if i > 0 {
        lemma_ticks_count_down(app, (i - 1) as nat);
    }
}

/// The number of ticks a running phase takes to run out: the time left in
/// ticks, rounded up, and at least one.
pub open spec fn ticks_to_complete(app: App) -> nat {
    if app.remaining == 0 {
        1
    } else {
        ((app.remaining + TICK_RATE_MS - 1) / (TICK_RATE_MS as int)) as nat
    }
}

/// A running phase completes exactly once, on tick number
/// `ticks_to_complete`: every earlier tick only counts down, and that tick
/// leaves the state that completing the phase gives.
pub proof fn lemma_phase_completes_once(app: App)
    requires
        !app.paused,
    ensures
        ticks_to_complete(app) >= 1,
        forall|i: nat|
            i < ticks_to_complete(app) ==> (#[trigger] ticked_times(app, i)).phase == app.phase
                && !ticked_times(app, i).paused,
        forall|i: nat|
            i + 1 < ticks_to_complete(app) ==> !(#[trigger] ticked_times(
                app,
                i,
            )).completes_on_tick(),
        ticked_times(app, (ticks_to_complete(app) - 1) as nat).completes_on_tick(),
        ticked_times(app, ticks_to_complete(app)) == app.completed(),
{
    let k = ticks_to_complete(app);
    assert forall|i: nat| i < k implies (#[trigger] ticked_times(app, i)).phase == app.phase
        && !ticked_times(app, i).paused by {
        if i > 0 {
            lemma_ticks_count_down(app, i);
        }
    }
    assert forall|i: nat| i + 1 < k implies !(#[trigger] ticked_times(
        app,
        i,
    )).completes_on_tick() by {
        lemma_ticks_count_down(app, i);
    }
    let last = (k - 1) as nat;
    if last > 0 {
        lemma_ticks_count_down(app, last);
    }
    assert(ticked_times(app, k) == ticked_times(app, last).ticked());
}

/// The key legend tells the truth: each key it names is bound to the command
/// it describes, and each label other than "Space" is the key itself.
pub proof fn lemma_footer_names_bound_keys()
    ensures
        footer_hints().len() == 4,
        forall|i: int|
            0 <= i < footer_hints().len() ==> binding(#[trigger] footer_hints()[i].0, false) == Some(
                footer_hints()[i].3,
            ),
        forall|i: int|
            1 <= i < footer_hints().len() ==> (#[trigger] footer_hints()[i]).1 == seq![
                footer_hints()[i].0,
            ],
        footer_hints()[0].0 == ' ',
{
    reveal_strlit("s");
    reveal_strlit("r");
    reveal_strlit("q");
}


/// The value of a character read as a decimal digit.
pub open spec fn digit_value(c: char) -> int {
    (c as int) - ('0' as int)
}

/// Whether a character is a decimal digit.
pub open spec fn is_digit(c: char) -> bool {
    0 <= digit_value(c) < 10
}

/// The number that a string of decimal digits denotes.
pub open spec fn digits_value(s: Seq<char>) -> int
    decreases s.len(),
{
    if s.len() == 0 {
        0
    } else {
        10 * digits_value(s.drop_last()) + digit_value(s.last())
    }
}

proof fn lemma_digit_char_value(d: nat)
    requires
        d < 10,
    ensures
        digit_value(digit_char(d)) == d,
{
}

/// `decimal(n)` is the decimal representation of `n`: a string of digits that
/// denotes `n`, with no leading zero, one digit long below ten and two digits
/// long from ten to ninety-nine.
pub proof fn lemma_decimal_denotes(n: nat)
    ensures
        digits_value(decimal(n)) == n,
        forall|i: int| 0 <= i < decimal(n).len() ==> is_digit(#[trigger] decimal(n)[i]),
        decimal(n).len() >= 1,
        n != 0 ==> decimal(n)[0] != '0',
        n < 10 ==> decimal(n).len() == 1,
        10 <= n < 100 ==> decimal(n).len() == 2,
    decreases n,
{
    if n < 10 {
        lemma_digit_char_value(n);
        assert(decimal(n).drop_last() =~= Seq::<char>::empty());
        assert(digits_value(Seq::<char>::empty()) == 0);
    } else {
        lemma_digit_char_value(n % 10);
        let m = n / 10;
        lemma_decimal_denotes(m);
        let s = decimal(n);
        assert(s.drop_last() =~= decimal(m));
        assert(s.last() == digit_char(n % 10));
        assert(digits_value(s) == 10 * digits_value(decimal(m)) + digit_value(s.last()));
        assert(s[0] == decimal(m)[0]);
        assert forall|i: int| 0 <= i < s.len() implies is_digit(#[trigger] s[i]) by {
            if i < decimal(m).len() {
                assert(s[i] == decimal(m)[i]);
            }
        }
    }
}

/// `two_digits(n)` is `n` in decimal padded with a zero to two digits: for
/// `n` below ten a `0` and the digit, from ten on exactly `decimal(n)`; it
/// denotes `n`, and below a hundred it is two characters long.
pub proof fn lemma_two_digits_pads(n: nat)
    ensures
        n >= 10 ==> two_digits(n) == decimal(n),
        n < 10 ==> two_digits(n) == seq!['0', digit_char(n)],
        n < 100 ==> two_digits(n).len() == 2,
        digits_value(two_digits(n)) == n,
        forall|i: int| 0 <= i < two_digits(n).len() ==> is_digit(#[trigger] two_digits(n)[i]),
{
    lemma_decimal_denotes(n);
    if n < 10 {
        lemma_digit_char_value(n);
        let s = two_digits(n);
        assert(s =~= seq!['0', digit_char(n)]);
        assert(s.drop_last() =~= seq!['0']);
        assert(seq!['0'].drop_last() =~= Seq::<char>::empty());
        assert(digits_value(Seq::<char>::empty()) == 0);
        assert(digits_value(seq!['0']) == 0);
        assert(digits_value(s) == 10 * digits_value(seq!['0']) + digit_value(digit_char(n)));
        assert forall|i: int| 0 <= i < s.len() implies is_digit(#[trigger] s[i]) by {
            if i == 1 {
                assert(s[1] == decimal(n)[0]);
            }
        }
    }
}

/// The seconds shown are the time left rounded up to whole seconds: no less
/// than the time left, and less than a second more (while the time left is
/// within what a `u64` count of seconds holds).
pub proof fn lemma_seconds_round_up(app: App)
    requires
        app.remaining <= u64::MAX * 1000,
    ensures
        app.seconds_left() * 1000 >= app.remaining,
        app.seconds_left() * 1000 < app.remaining + 1000,
{
}

/// Pausing or resuming changes nothing but the paused flag, which it flips:
/// the time left, the phase, the counters and the settings stay as they are.
pub proof fn lemma_toggle_changes_only_pause(app: App)
    ensures
        app.toggled().paused != app.paused,
        app.toggled().remaining == app.remaining,
        app.toggled().total == app.total,
        app.toggled().phase == app.phase,
        app.toggled().sessions_done == app.sessions_done,
        app.toggled().cycle == app.cycle,
        app.toggled().cycle_done == app.cycle_done,
        app.toggled().long_after == app.long_after,
        app.toggled().work == app.work,
        app.toggled().short == app.short,
        app.toggled().long == app.long,
        app.toggled().notify == app.notify,
        app.toggled().seconds_left() == app.seconds_left(),
{
}

/// Space pauses a running timer and resumes a paused one, whether Ctrl is held
/// or not; it changes nothing else, the timer keeps running, and pressing it
/// twice gives back the state it started from.
pub proof fn lemma_space_toggles_pause(app: App, control: bool)
    ensures
        app.after_input(Input::Key { code: ' ', control }).paused != app.paused,
        app.after_input(Input::Key { code: ' ', control }).remaining == app.remaining,
        app.after_input(Input::Key { code: ' ', control }).total == app.total,
        app.after_input(Input::Key { code: ' ', control }).phase == app.phase,
        app.after_input(Input::Key { code: ' ', control }).sessions_done == app.sessions_done,
        app.after_input(Input::Key { code: ' ', control }).cycle == app.cycle,
        app.after_input(Input::Key { code: ' ', control }).cycle_done == app.cycle_done,
        app.after_input(Input::Key { code: ' ', control }).long_after == app.long_after,
        app.after_input(Input::Key { code: ' ', control }).work == app.work,
        app.after_input(Input::Key { code: ' ', control }).short == app.short,
        app.after_input(Input::Key { code: ' ', control }).long == app.long,
        app.after_input(Input::Key { code: ' ', control }).notify == app.notify,
        app.after_input(Input::Key { code: ' ', control }).after_input(
            Input::Key { code: ' ', control },
        ) == app,
        app.outcome_of(Input::Key { code: ' ', control }) == Outcome::Continue,
{
}


/// The standard seven segments of a digit other than `1`: top, upper right,
/// lower right, bottom, lower left, upper left, middle.
pub open spec fn segments(d: char) -> (bool, bool, bool, bool, bool, bool, bool) {
    match d {
        '0' => (true, true, true, true, true, true, false),
        '2' => (true, true, false, true, true, false, true),
        '3' => (true, true, true, true, false, false, true),
        '4' => (false, true, true, false, false, true, true),
        '5' => (true, false, true, true, false, true, true),
        '6' => (true, false, true, true, true, true, true),
        '7' => (true, true, true, false, false, false, false),
        '8' => (true, true, true, true, true, true, true),
        _ => (true, true, true, true, false, true, true),
    }
}

/// A cell of a glyph: a full block when lit, a space when not.
pub open spec fn cell(lit: bool) -> char {
    if lit {
        '█'
    } else {
        ' '
    }
}

/// The 3-by-5 drawing of a set of seven segments: each segment lights its
/// cells, a lit top or bottom also lights the corners next to it, and a lit
/// middle fills its whole row; with the middle off, the middle row's sides
/// are lit where the side segments above and below it both are.
pub open spec fn segment_rows(s: (bool, bool, bool, bool, bool, bool, bool)) -> Seq<Seq<char>> {
    let (a, b, c, d, e, f, g) = s;
    seq![
        seq![cell(a || f), cell(a), cell(a || b)],
        seq![cell(f), ' ', cell(b)],
        if g {
            seq!['█', '█', '█']
        } else {
            seq![cell(f && e), ' ', cell(b && c)]
        },
        seq![cell(e), ' ', cell(c)],
        seq![cell(d || e), cell(d), cell(d || c)],
    ]
}

proof fn reveal_glyph_cells()
    ensures
        "███"@ == seq!['█', '█', '█'],
        "█ █"@ == seq!['█', ' ', '█'],
        "  █"@ == seq![' ', ' ', '█'],
        "█  "@ == seq!['█', ' ', ' '],
        " █ "@ == seq![' ', '█', ' '],
        "██ "@ == seq!['█', '█', ' '],
        "   "@ == seq![' ', ' ', ' '],
{
    reveal_strlit("███");
    reveal_strlit("█ █");
    reveal_strlit("  █");
    reveal_strlit("█  ");
    reveal_strlit(" █ ");
    reveal_strlit("██ ");
    reveal_strlit("   ");
}

/// How the big clock draws characters: every digit but `1` as its seven
/// segments, `1` as a centred stroke with a flag, and anything else as a
/// colon of two dots.
pub proof fn lemma_glyphs_draw_segments(ch: char)
    ensures
        is_digit(ch) && ch != '1' ==> glyph_rows(ch) == segment_rows(segments(ch)),
        ch == '1' ==> glyph_rows(ch) == seq![
            seq![' ', '█', ' '],
            seq!['█', '█', ' '],
            seq![' ', '█', ' '],
            seq![' ', '█', ' '],
            seq![' ', '█', ' '],
        ],
        !is_digit(ch) ==> glyph_rows(ch) == seq![
            seq![' ', ' ', ' '],
            seq![' ', '█', ' '],
            seq![' ', ' ', ' '],
            seq![' ', '█', ' '],
            seq![' ', ' ', ' '],
        ],
{
    reveal_glyph_cells();
    if ch == '0' {
        assert(glyph_rows(ch) =~~= segment_rows(segments(ch)));
    }
    if ch == '1' {
        assert(glyph_rows(ch) =~~= seq![
            seq![' ', '█', ' '],
            seq!['█', '█', ' '],
            seq![' ', '█', ' '],
            seq![' ', '█', ' '],
            seq![' ', '█', ' '],
        ]);
    }
    if ch == '2' {
        assert(glyph_rows(ch) =~~= segment_rows(segments(ch)));
    }
    if ch == '3' {
        assert(glyph_rows(ch) =~~= segment_rows(segments(ch)));
    }
    if ch == '4' {
        assert(glyph_rows(ch) =~~= segment_rows(segments(ch)));
    }
    if ch == '5' {
        assert(glyph_rows(ch) =~~= segment_rows(segments(ch)));
    }
    if ch == '6' {
        assert(glyph_rows(ch) =~~= segment_rows(segments(ch)));
    }
    if ch == '7' {
        assert(glyph_rows(ch) =~~= segment_rows(segments(ch)));
    }
    if ch == '8' {
        assert(glyph_rows(ch) =~~= segment_rows(segments(ch)));
    }
    if ch == '9' {
        assert(glyph_rows(ch) =~~= segment_rows(segments(ch)));
    }
    if !is_digit(ch) {
        assert(glyph_rows(ch) =~~= seq![
            seq![' ', ' ', ' '],
            seq![' ', '█', ' '],
            seq![' ', ' ', ' '],
            seq![' ', '█', ' '],
            seq![' ', ' ', ' '],
        ]);
    }
}

/// Whether the cell at row `r`, column `k` of a drawing is lit.
pub open spec fn lit(rows: Seq<Seq<char>>, r: int, k: int) -> bool {
    rows[r][k] == '█'
}

/// No two digits are drawn alike, and no digit is drawn like the colon.
pub proof fn lemma_glyphs_distinct(c1: char, c2: char)
    requires
        is_digit(c1),
        c1 != c2,
    ensures
        glyph_rows(c1) != glyph_rows(c2),
{
    lemma_glyphs_draw_segments(c1);
    lemma_glyphs_draw_segments(c2);
    let r1 = glyph_rows(c1);
    let r2 = glyph_rows(c2);
    if r1 == r2 {
        assert(lit(r1, 0, 1) == lit(r2, 0, 1));
        assert(lit(r1, 1, 0) == lit(r2, 1, 0));
        assert(lit(r1, 1, 1) == lit(r2, 1, 1));
        assert(lit(r1, 1, 2) == lit(r2, 1, 2));
        assert(lit(r1, 2, 1) == lit(r2, 2, 1));
        assert(lit(r1, 3, 0) == lit(r2, 3, 0));
        assert(lit(r1, 3, 2) == lit(r2, 3, 2));
        assert(lit(r1, 4, 1) == lit(r2, 4, 1));
        assert(lit(r1, 0, 0) == lit(r2, 0, 0));
    }
}


/// The key table: `q`, `Q` and Ctrl-`c` quit; space pauses or resumes; `s`,
/// `n`, `S`, `N` skip; `r`, `R` reset; Ctrl does not matter except for `c`;
/// every other key is unbound.
pub proof fn lemma_key_bindings(code: char, control: bool)
    ensures
        (code == 'q' || code == 'Q') ==> binding(code, control) == Some(Command::Quit),
        binding('c', true) == Some(Command::Quit),
        binding('c', false) == None::<Command>,
        code == ' ' ==> binding(code, control) == Some(Command::TogglePause),
        (code == 's' || code == 'n' || code == 'S' || code == 'N') ==> binding(code, control)
            == Some(Command::Skip),
        (code == 'r' || code == 'R') ==> binding(code, control) == Some(Command::Reset),
        !(code == 'q' || code == 'Q' || code == 'c' || code == ' ' || code == 's' || code == 'n'
            || code == 'S' || code == 'N' || code == 'r' || code == 'R') ==> binding(code, control)
            == None::<Command>,
{
}

/// Quitting and unbound keys leave the timer as it is; quitting is reported
/// as such, everything else as "continue"; ticks are never reported as quit.
pub proof fn lemma_quit_and_unbound_keys(app: App, code: char, control: bool)
    ensures
        binding(code, control) == Some(Command::Quit) ==> app.after_input(
            Input::Key { code, control },
        ) == app && app.outcome_of(Input::Key { code, control }) == Outcome::Quit,
        binding(code, control) == None::<Command> ==> app.after_input(
            Input::Key { code, control },
        ) == app && app.outcome_of(Input::Key { code, control }) == Outcome::Continue,
        app.outcome_of(Input::Tick) != Outcome::Quit,
        app.after_input(Input::Tick) == app.ticked(),
{
}

/// The clock string of minutes and seconds below a hundred is five
/// characters, `MM:SS`: two digits denoting the minutes, a colon, and two
/// digits denoting the seconds.
pub proof fn lemma_clock_string_layout(minutes: u64, seconds: u64)
    requires
        minutes < 100,
        seconds < 100,
    ensures
        clock_string(minutes, seconds).len() == 5,
        clock_string(minutes, seconds)[2] == ':',
        clock_string(minutes, seconds).subrange(0, 2) == two_digits(minutes as nat),
        clock_string(minutes, seconds).subrange(3, 5) == two_digits(seconds as nat),
        digits_value(clock_string(minutes, seconds).subrange(0, 2)) == minutes,
        digits_value(clock_string(minutes, seconds).subrange(3, 5)) == seconds,
{
    lemma_two_digits_pads(minutes as nat);
    lemma_two_digits_pads(seconds as nat);
    let c = clock_string(minutes, seconds);
    assert(c.subrange(0, 2) =~= two_digits(minutes as nat));
    assert(c.subrange(3, 5) =~= two_digits(seconds as nat));
}

/// Every glyph is five rows of three cells.
pub proof fn lemma_glyph_shape(ch: char)
    ensures
        glyph_rows(ch).len() == 5,
        forall|r: int| 0 <= r < 5 ==> (#[trigger] glyph_rows(ch)[r]).len() == 3,
{
    lemma_glyphs_draw_segments(ch);
}

/// Row `row` of the big clock is the glyphs' rows laid side by side: glyph
/// `i` takes columns `4i` to `4i + 2`, a space follows every glyph but the
/// last, and the row is `4n - 1` cells wide for `n` characters.
pub proof fn lemma_timer_row_layout(text: Seq<char>, row: int)
    requires
        0 <= row < 5,
    ensures
        timer_row(text, row).len() == if text.len() == 0 {
            0
        } else {
            4 * text.len() - 1
        },
        forall|i: int, j: int|
            0 <= i < text.len() && 0 <= j < 3 ==> #[trigger] timer_row(text, row)[4 * i + j]
                == glyph_rows(text[i])[row][j],
        forall|i: int| 0 <= i < text.len() - 1 ==> #[trigger] timer_row(text, row)[4 * i + 3] == ' ',
    decreases text.len(),
{
    if text.len() > 0 {
        lemma_glyph_shape(text.last());
        lemma_glyph_shape(text[0]);
        if text.len() > 1 {
            let init = text.drop_last();
            lemma_timer_row_layout(init, row);
            let n = init.len();
            let t = timer_row(text, row);
            let p = timer_row(init, row);
            assert(t == p + seq![' '] + glyph_rows(text.last())[row]);
            assert forall|i: int, j: int| 0 <= i < text.len() && 0 <= j < 3 implies #[trigger] t[4
                * i + j] == glyph_rows(text[i])[row][j] by {
                if i < n {
                    assert(text[i] == init[i]);
                    assert(t[4 * i + j] == p[4 * i + j]);
                } else {
                    assert(t[4 * i + j] == glyph_rows(text.last())[row][j]);
                }
            }
            assert forall|i: int| 0 <= i < text.len() - 1 implies #[trigger] t[4 * i + 3] == ' ' by {
                if i < n - 1 {
                    assert(t[4 * i + 3] == p[4 * i + 3]);
                }
            }
        }
    }
}

/// The badge of a focus session ends in the decimal number of the session
/// within the cycle, counting from one; a break's badge is its icon and name
/// alone.
pub proof fn lemma_badge_numbers_session(app: App)
    ensures
        app.phase == Phase::Focus ==> badge_text(app) == icon_text(app.phase) + " "@ + name_text(
            app.phase,
        ) + " #"@ + decimal((app.cycle_done + 1) as nat),
        app.phase == Phase::Focus ==> digits_value(decimal((app.cycle_done + 1) as nat))
            == app.cycle_done + 1,
        app.phase != Phase::Focus ==> badge_text(app) == icon_text(app.phase) + " "@ + name_text(
            app.phase,
        ),
{
    lemma_decimal_denotes((app.cycle_done + 1) as nat);
}

/// The statistics line reports the completed sessions and the current cycle
/// counting from one, in decimal, and names the phase that comes next.
pub proof fn lemma_stats_report_counters(app: App)
    ensures
        stats_text(app) == "Pomodoros: "@ + decimal(app.sessions_done as nat) + "  ·  Cycle: "@
            + decimal((app.cycle + 1) as nat) + "  ·  Next: "@ + label_text(app.following_phase()),
        digits_value(decimal(app.sessions_done as nat)) == app.sessions_done,
        digits_value(decimal((app.cycle + 1) as nat)) == app.cycle + 1,
        app.phase != Phase::Focus ==> label_text(app.following_phase()) == "Focus Session"@,
{
    lemma_decimal_denotes(app.sessions_done as nat);
    lemma_decimal_denotes((app.cycle + 1) as nat);
}

} // verus!
