//! The Catppuccin Mocha palette, each colour as `0xRRGGBB`.

use vstd::prelude::*;

use crate::app::Phase;

verus! {

pub const BASE: u32 = 0x1e1e2e;
pub const SURFACE0: u32 = 0x313244;
pub const SURFACE1: u32 = 0x45475a;
pub const OVERLAY0: u32 = 0x6c7086;
pub const OVERLAY1: u32 = 0x7f849c;
pub const OVERLAY2: u32 = 0x9399b2;
pub const SUBTEXT0: u32 = 0xa6adc8;
pub const LAVENDER: u32 = 0xb4befe;
pub const TEAL: u32 = 0x94e2d5;
pub const GREEN: u32 = 0xa6e3a1;
pub const RED: u32 = 0xf38ba8;

/// The colour that marks a phase: red for focus, green for a short break,
/// teal for the long break.
pub fn accent(phase: Phase) -> (rgb: u32)
    ensures
        rgb == match phase {
            Phase::Focus => RED,
            Phase::ShortBreak => GREEN,
            Phase::LongBreak => TEAL,
        },
{
    match phase {
        Phase::Focus => RED,
        Phase::ShortBreak => GREEN,
        Phase::LongBreak => TEAL,
    }
}

/// The colour of secondary text and borders: brighter while paused.
pub fn muted(paused: bool) -> (rgb: u32)
    ensures
        rgb == if paused { OVERLAY1 } else { OVERLAY0 },
{
    if paused {
        OVERLAY1
    } else {
        OVERLAY0
    }
}


/// The colour of the clock and the card's border: the phase's accent while
/// running, the muted colour while paused.
pub fn highlight(phase: Phase, paused: bool) -> (rgb: u32)
    ensures
        rgb == if paused {
            OVERLAY1
        } else {
            match phase {
                Phase::Focus => RED,
                Phase::ShortBreak => GREEN,
                Phase::LongBreak => TEAL,
            }
        },
{
    if paused {
        muted(paused)
    } else {
        accent(phase)
    }
}

} // verus!
