//! `housekeep copy`: an unmodified copy of a sound file (mode 1). Mode 2,
//! many numbered copies, is not implemented.

use crate::error::CdpError;
use crate::housekeep::{check_wave_scope, wave_scope_error};
use crate::sound::SoundFormat;
use vstd::prelude::*;

verus! {

/// The greeting printed ahead of a bare `housekeep copy`.
pub const GREETING: &'static str = "CDP Release 7.1 2016\n";

/// The usage text of `housekeep copy`.
pub const USAGE: &'static str = "CDP Release 7.1 2016
MAKE COPIES OF THE INFILE

USAGE: housekeep copy 1 infile outfile
OR:    housekeep copy 2 infile count [-i]
MODES ARE
1) COPY ONCE
2) COPY MANY
         Produces N copies of infile X, with names X_001,X_002...
         COUNT is number of duplicates to produce.
     -i  ignore existing duplicates (don't overwrite them).
         default, process halts on discovering a pre-existing file.
";

/// The highest mode number of `housekeep copy`.
pub const MAX_MODE: u32 = 2;

/// The modes of `housekeep copy` that are implemented.
#[derive(Debug, Clone, Copy, PartialEq, Eq, Structural)]
pub enum Mode {
    Once,
}

/// The mode numbered `mode` (1).
pub open spec fn mode_of(mode: u32) -> Option<Mode> {
    if mode == 1 {
        Some(Mode::Once)
    } else {
        None
    }
}

impl Mode {
    /// The mode numbered `mode`, or `None` (mode 2 among them).
    pub fn from_number(mode: u32) -> (r: Option<Mode>)
        ensures
            r == mode_of(mode),
    {
        match mode {
            1 => Some(Mode::Once),
            _ => None,
        }
    }
}

/// Checks that a copy handles an input of format `format`.
pub fn check_copy_format(format: SoundFormat) -> (r: Result<(), CdpError>)
    ensures
        match wave_scope_error("housekeep copy"@, format) {
            None => r is Ok,
            Some((category, message)) => r matches Err(e) && e.category == category && e.message@
                == message,
        },
{
    check_wave_scope("housekeep copy", format)
}

} // verus!
