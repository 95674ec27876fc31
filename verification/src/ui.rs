//! The text that the timer's card shows: the big clock digits, the clock
//! string, the statistics line and the cycle's progress marks.

use vstd::prelude::*;

use crate::app::{App, Phase};
use crate::events::Command;
use crate::text::{decimal, push_decimal, push_two_digits, two_digits};
use crate::theme::{LAVENDER, OVERLAY1};

verus! {

/// The five rows of the big glyph drawn for a character of the clock: the
/// digit's bitmap for a decimal digit, a colon for anything else.
pub open spec fn glyph_rows(ch: char) -> Seq<Seq<char>> {
    match ch {
        '0' => seq!["███"@, "█ █"@, "█ █"@, "█ █"@, "███"@],
        '1' => seq![" █ "@, "██ "@, " █ "@, " █ "@, " █ "@],
        '2' => seq!["███"@, "  █"@, "███"@, "█  "@, "███"@],
        '3' => seq!["███"@, "  █"@, "███"@, "  █"@, "███"@],
        '4' => seq!["█ █"@, "█ █"@, "███"@, "  █"@, "  █"@],
        '5' => seq!["███"@, "█  "@, "███"@, "  █"@, "███"@],
        '6' => seq!["███"@, "█  "@, "███"@, "█ █"@, "███"@],
        '7' => seq!["███"@, "  █"@, "  █"@, "  █"@, "  █"@],
        '8' => seq!["███"@, "█ █"@, "███"@, "█ █"@, "███"@],
        '9' => seq!["███"@, "█ █"@, "███"@, "  █"@, "███"@],
        _ => seq!["   "@, " █ "@, "   "@, " █ "@, "   "@],
    }
}

/// The big glyph for a character of the clock.
pub fn glyph(ch: char) -> (rows: [&'static str; 5])
    ensures
        glyph_rows(ch).len() == 5,
        forall|r: int| 0 <= r < 5 ==> (#[trigger] rows@[r])@ == glyph_rows(ch)[r],
{
    match ch {
        '0' => ["███", "█ █", "█ █", "█ █", "███"],
        '1' => [" █ ", "██ ", " █ ", " █ ", " █ "],
        '2' => ["███", "  █", "███", "█  ", "███"],
        '3' => ["███", "  █", "███", "  █", "███"],
        '4' => ["█ █", "█ █", "███", "  █", "  █"],
        '5' => ["███", "█  ", "███", "  █", "███"],
        '6' => ["███", "█  ", "███", "█ █", "███"],
        '7' => ["███", "  █", "  █", "  █", "  █"],
        '8' => ["███", "█ █", "███", "█ █", "███"],
        '9' => ["███", "█ █", "███", "  █", "███"],
        _ => ["   ", " █ ", "   ", " █ ", "   "],
    }
}

/// Row `row` of the big rendering of `text`: the glyphs' rows side by side,
/// one space apart.
pub open spec fn timer_row(text: Seq<char>, row: int) -> Seq<char>
    decreases text.len(),
{
    if text.len() == 0 {
        seq![]
    } else if text.len() == 1 {
        glyph_rows(text[0])[row]
    } else {
        timer_row(text.drop_last(), row) + seq![' '] + glyph_rows(text.last())[row]
    }
}

fn render_row(text: &str, row: usize) -> (s: String)
    requires
        row < 5,
    ensures
        s@ == timer_row(text@, row as int),
{
    let n = text.unicode_len();
    let mut s = String::new();
    proof {
        assert(text@.take(0) =~= Seq::<char>::empty());
    }
    let mut i: usize = 0;
    while i < n
        invariant
            n == text@.len(),
            i <= n,
            row < 5,
            s@ == timer_row(text@.take(i as int), row as int),
        decreases n - i,
    {
        let ch = text.get_char(i);
        let cells = glyph(ch);
        let ghost before = s@;
        if i > 0 {
            s.append(" ");
        }
        s.append(cells[row]);
        proof {
            reveal_strlit(" ");
            let t = text@.take(i + 1);
            assert(t.drop_last() =~= text@.take(i as int));
            assert(t.last() == ch);
            if i == 0 {
                assert(s@ =~= glyph_rows(ch)[row as int]);
            } else {
                assert(s@ =~= before + seq![' '] + glyph_rows(ch)[row as int]);
            }
        }
        i = i + 1;
    }
    proof {
        assert(text@.take(n as int) =~= text@);
    }
    s
}

/// The five rows of the big clock for `text`.
pub fn timer_rows(text: &str) -> (rows: Vec<String>)
    ensures
        rows.len() == 5,
        forall|r: int| 0 <= r < 5 ==> (#[trigger] rows@[r])@ == timer_row(text@, r),
{
    let mut rows: Vec<String> = Vec::new();
    let mut row: usize = 0;
    while row < 5
        invariant
            row <= 5,
            rows.len() == row,
            forall|r: int| 0 <= r < row ==> (#[trigger] rows@[r])@ == timer_row(text@, r),
        decreases 5 - row,
    {
        rows.push(render_row(text, row));
        row = row + 1;
    }
    rows
}

/// The clock string `MM:SS`, each field padded to two digits.
pub open spec fn clock_string(minutes: u64, seconds: u64) -> Seq<char> {
    two_digits(minutes as nat) + seq![':'] + two_digits(seconds as nat)
}

/// The clock string for the given minutes and seconds.
pub fn clock_text(minutes: u64, seconds: u64) -> (s: String)
    ensures
        s@ == clock_string(minutes, seconds),
{
    let mut s = String::new();
    push_two_digits(&mut s, minutes);
    s.append(":");
    proof {
        reveal_strlit(":");
    }
    push_two_digits(&mut s, seconds);
    proof {
        assert(s@ =~= clock_string(minutes, seconds));
    }
    s
}

/// Terminals smaller than this show a notice in place of the card.
pub fn card_fits(width: u16, height: u16) -> (fits: bool)
    ensures
        fits == (width >= 42 && height >= 18),
{
    !(width < 42 || height < 18)
}

/// The title-case label of a phase, as the statistics line names it.
pub open spec fn label_text(phase: Phase) -> Seq<char> {
    match phase {
        Phase::Focus => "Focus Session"@,
        Phase::ShortBreak => "Short Break"@,
        Phase::LongBreak => "Long Break"@,
    }
}

impl Phase {
    pub fn label(self) -> (s: &'static str)
        ensures
            s@ == label_text(self),
    {
        match self {
            Phase::Focus => "Focus Session",
            Phase::ShortBreak => "Short Break",
            Phase::LongBreak => "Long Break",
        }
    }
}

/// The statistics line: sessions completed, the number of the current cycle,
/// and the phase that comes next.
pub open spec fn stats_text(app: App) -> Seq<char> {
    "Pomodoros: "@ + decimal(app.sessions_done as nat) + "  ·  Cycle: "@ + decimal(
        (app.cycle + 1) as nat,
    ) + "  ·  Next: "@ + label_text(app.following_phase())
}

impl App {
    /// The statistics line under the card.
    pub fn stats_line(&self) -> (s: String)
        requires
            self.cycle < u32::MAX,
            self.phase == Phase::Focus ==> self.cycle_done < u32::MAX,
        ensures
            s@ == stats_text(*self),
    {
        let next = self.next_phase();
        let mut s = String::from_str("Pomodoros: ");
        push_decimal(&mut s, self.sessions_done as u64);
        s.append("  ·  Cycle: ");
        push_decimal(&mut s, (self.cycle + 1) as u64);
        s.append("  ·  Next: ");
        s.append(next.label());
        proof {
            assert(s@ =~= stats_text(*self));
        }
        s
    }

    /// One mark per focus session of a cycle, set for those done.
    pub fn cycle_marks(&self) -> (marks: Vec<bool>)
        ensures
            marks.len() == self.long_after,
            forall|i: int| 0 <= i < marks.len() ==> #[trigger] marks@[i] == (i < self.cycle_done),
    {
        let mut marks: Vec<bool> = Vec::new();
        let mut i: u32 = 0;
        while i < self.long_after
            invariant
                i <= self.long_after,
                marks.len() == i,
                forall|j: int| 0 <= j < i ==> #[trigger] marks@[j] == (j < self.cycle_done),
            decreases self.long_after - i,
        {
            marks.push(i < self.cycle_done);
            i = i + 1;
        }
        marks
    }
}


/// The partial block drawn in the cell where the progress bar ends, by the
/// number of eighths of the cell that are filled.
pub open spec fn sub_block(eighths: nat) -> Seq<char> {
    if eighths == 0 {
        " "@
    } else if eighths == 1 {
        "▏"@
    } else if eighths == 2 {
        "▎"@
    } else if eighths == 3 {
        "▍"@
    } else if eighths == 4 {
        "▌"@
    } else if eighths == 5 {
        "▋"@
    } else if eighths == 6 {
        "▊"@
    } else if eighths == 7 {
        "▉"@
    } else {
        "█"@
    }
}

fn sub_block_str(eighths: usize) -> (s: &'static str)
    ensures
        s@ == sub_block(eighths as nat),
{
    match eighths {
        0 => " ",
        1 => "▏",
        2 => "▎",
        3 => "▍",
        4 => "▌",
        5 => "▋",
        6 => "▊",
        7 => "▉",
        _ => "█",
    }
}

/// The cell at position `i` of a progress bar whose first `whole` cells are
/// full and whose next cell is filled `eighths` eighths (eight or more fill it).
pub open spec fn bar_cell(i: int, whole: int, eighths: nat) -> Seq<char> {
    if i < whole {
        "█"@
    } else if i == whole {
        sub_block(eighths)
    } else {
        " "@
    }
}

/// The cells of a progress bar `width` cells wide.
pub fn bar_cells(width: usize, whole: usize, eighths: usize) -> (cells: Vec<&'static str>)
    ensures
        cells.len() == width,
        forall|i: int| 0 <= i < width ==> (#[trigger] cells@[i])@ == bar_cell(i, whole as int, eighths as nat),
{
    let mut cells: Vec<&'static str> = Vec::new();
    let mut i: usize = 0;
    while i < width
        invariant
            i <= width,
            cells.len() == i,
            forall|j: int| 0 <= j < i ==> (#[trigger] cells@[j])@ == bar_cell(j, whole as int, eighths as nat),
        decreases width - i,
    {
        let cell = if i < whole {
            "█"
        } else if i == whole {
            sub_block_str(eighths)
        } else {
            " "
        };
        cells.push(cell);
        i = i + 1;
    }
    cells
}

impl App {
    /// The mark shown after the card's title: a pause sign while paused,
    /// nothing otherwise.
    pub fn pause_marker(&self) -> (s: &'static str)
        ensures
            s@ == (if self.paused { " ⏸"@ } else { ""@ }),
    {
        if self.paused {
            " ⏸"
        } else {
            ""
        }
    }
}


/// Where the big clock starts: centred in the area, or at its left edge when
/// the clock is wider than the area.
pub open spec fn centred_start(area_x: u16, area_width: u16, rows_width: u16) -> int {
    area_x + if area_width > rows_width {
        (area_width - rows_width) / 2
    } else {
        0
    }
}

/// The column where the big clock's rows start.
pub fn timer_x(area_x: u16, area_width: u16, rows_width: u16) -> (x: u16)
    requires
        centred_start(area_x, area_width, rows_width) <= u16::MAX,
    ensures
        x == centred_start(area_x, area_width, rows_width),
{
    let spare: u16 = if area_width > rows_width {
        area_width - rows_width
    } else {
        0
    };
    area_x + spare / 2
}

/// The key legend under the card: each key's character, the label the legend
/// shows for it, what it does, and the command it is bound to.
pub open spec fn footer_hints() -> Seq<(char, Seq<char>, Seq<char>, Command)> {
    seq![
        (' ', "Space"@, "Pause/Resume"@, Command::TogglePause),
        ('s', "s"@, "Skip"@, Command::Skip),
        ('r', "r"@, "Reset"@, Command::Reset),
        ('q', "q"@, "Quit"@, Command::Quit),
    ]
}

/// The segments drawn for one key of the legend: the label in brackets, the
/// label bold in lavender, then the description.
pub open spec fn hint_segments(label: Seq<char>, desc: Seq<char>, muted: u32) -> Seq<
    (Seq<char>, u32, bool),
> {
    seq![
        ("["@, muted, false),
        (label, LAVENDER, true),
        ("]"@, muted, false),
        (seq![' '] + desc, OVERLAY1, false),
    ]
}

/// The whole legend as (text, colour, bold) segments, the keys three spaces
/// apart.
pub open spec fn footer_layout(muted: u32) -> Seq<(Seq<char>, u32, bool)> {
    let h = footer_hints();
    let gap = seq![("   "@, muted, false)];
    hint_segments(h[0].1, h[0].2, muted) + gap + hint_segments(h[1].1, h[1].2, muted) + gap
        + hint_segments(h[2].1, h[2].2, muted) + gap + hint_segments(h[3].1, h[3].2, muted)
}

/// The key legend's segments: text, colour, and whether it is bold.
pub fn footer_segments(muted: u32) -> (segs: Vec<(&'static str, u32, bool)>)
    ensures
        segs@.map_values(|seg: (&'static str, u32, bool)| (seg.0@, seg.1, seg.2)) == footer_layout(
            muted,
        ),
{
    let segs = vec![
        ("[", muted, false),
        ("Space", LAVENDER, true),
        ("]", muted, false),
        (" Pause/Resume", OVERLAY1, false),
        ("   ", muted, false),
        ("[", muted, false),
        ("s", LAVENDER, true),
        ("]", muted, false),
        (" Skip", OVERLAY1, false),
        ("   ", muted, false),
        ("[", muted, false),
        ("r", LAVENDER, true),
        ("]", muted, false),
        (" Reset", OVERLAY1, false),
        ("   ", muted, false),
        ("[", muted, false),
        ("q", LAVENDER, true),
        ("]", muted, false),
        (" Quit", OVERLAY1, false),
    ];
    proof {
        reveal_strlit(" Pause/Resume");
        reveal_strlit("Pause/Resume");
        reveal_strlit(" Skip");
        reveal_strlit("Skip");
        reveal_strlit(" Reset");
        reveal_strlit("Reset");
        reveal_strlit(" Quit");
        reveal_strlit("Quit");
        let ghost m = segs@.map_values(|seg: (&'static str, u32, bool)| (seg.0@, seg.1, seg.2));
        let ghost f = footer_layout(muted);
        assert(segs@.len() == 19);
        assert(f.len() == 19);
        assert forall|i: int| 0 <= i < 19 implies m[i] == f[i] by {
            if i == 0 {
                assert(m[0] == f[0]);
            }
            if i == 1 {
                assert(m[1] == f[1]);
            }
            if i == 2 {
                assert(m[2] == f[2]);
            }
            if i == 3 {
                assert(m[3] == f[3]);
            }
            if i == 4 {
                assert(m[4] == f[4]);
            }
            if i == 5 {
                assert(m[5] == f[5]);
            }
            if i == 6 {
                assert(m[6] == f[6]);
            }
            if i == 7 {
                assert(m[7] == f[7]);
            }
            if i == 8 {
                assert(m[8] == f[8]);
            }
            if i == 9 {
                assert(m[9] == f[9]);
            }
            if i == 10 {
                assert(m[10] == f[10]);
            }
            if i == 11 {
                assert(m[11] == f[11]);
            }
            if i == 12 {
                assert(m[12] == f[12]);
            }
            if i == 13 {
                assert(m[13] == f[13]);
            }
            if i == 14 {
                assert(m[14] == f[14]);
            }
            if i == 15 {
                assert(m[15] == f[15]);
            }
            if i == 16 {
                assert(m[16] == f[16]);
            }
            if i == 17 {
                assert(m[17] == f[17]);
            }
            if i == 18 {
                assert(m[18] == f[18]);
            }
        }
        assert(m =~= f);
    }
    segs
}

} // verus!
