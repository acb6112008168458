//! `sndinfo units`: conversions between musical units. Modes 1 (MIDI to
//! frequency) and 2 (frequency to MIDI) are implemented; the conversions
//! themselves are floating-point work, done by the caller.

use vstd::prelude::*;

verus! {

/// The highest mode number of `sndinfo units`.
pub const MAX_MODE: u32 = 31;

/// The modes of `sndinfo units` that are implemented.
#[derive(Debug, Clone, Copy, PartialEq, Eq, Structural)]
pub enum Mode {
    MidiToFrq,
    FrqToMidi,
}

/// The mode numbered `mode` (1 or 2).
pub open spec fn mode_of(mode: u32) -> Option<Mode> {
    if mode == 1 {
        Some(Mode::MidiToFrq)
    } else if mode == 2 {
        Some(Mode::FrqToMidi)
    } else {
        None
    }
}

impl Mode {
    /// The mode numbered `mode`, or `None` (every mode above 2 among them).
    pub fn from_number(mode: u32) -> (r: Option<Mode>)
        ensures
            r == mode_of(mode),
    {
        match mode {
            1 => Some(Mode::MidiToFrq),
            2 => Some(Mode::FrqToMidi),
            _ => None,
        }
    }
}

} // verus!
