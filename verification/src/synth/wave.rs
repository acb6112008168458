//! `synth wave mode outfile sr chans dur freq [-aamp] [-ttabsize]`.

use crate::error::{CdpError, ExitCategory};
use vstd::prelude::*;

verus! {

/// The waveform `synth wave` generates.
#[derive(Debug, Clone, Copy, PartialEq, Eq, Structural)]
pub enum Mode {
    Sine,
    Square,
    Sawtooth,
    Ramp,
}

/// The highest mode number of `synth wave`.
pub const MAX_MODE: u32 = 4;

/// The usage text of `synth wave`.
pub const USAGE: &'static str = "CDP Release 7.1 2016
GENERATE SIMPLE WAVEFORMS

USAGE: synth wave mode outfile sr chans dur freq [-aamp] [-ttabsize]

MODES ARE
1) sine wave
2) square wave
3) sawtooth wave
4) ramp wave

SR      (sample rate) can be 48000, 24000, 44100, 22050, 32000, or 16000
CHANS   can be 1, 2 or 4
DUR     is duration of output snd, in seconds.
FREQ    is frq of output sond, in Hz
AMP     is amplitude of output sound: 0.0 < Range <= 1.0 (max & default).
TABSIZE is size of table storing waveform.
        defaults to 256: input value always rounded to multiple of 4.

Frq and Amp may vary through time.
";

/// The mode numbered `mode` (1 to 4).
pub open spec fn mode_of(mode: u32) -> Option<Mode> {
    if mode == 1 {
        Some(Mode::Sine)
    } else if mode == 2 {
        Some(Mode::Square)
    } else if mode == 3 {
        Some(Mode::Sawtooth)
    } else if mode == 4 {
        Some(Mode::Ramp)
    } else {
        None
    }
}

impl Mode {
    /// The mode numbered `mode`, or `None`.
    pub fn from_number(mode: u32) -> (r: Option<Mode>)
        ensures
            r == mode_of(mode),
    {
        match mode {
            1 => Some(Mode::Sine),
            2 => Some(Mode::Square),
            3 => Some(Mode::Sawtooth),
            4 => Some(Mode::Ramp),
            _ => None,
        }
    }
}

/// The length of the fade in and of the fade out, in frames.
pub const SYNTH_SPLICELEN: i64 = 256;

/// Whether an output of `sampdur` samples in `chans` channels is long
/// enough: a fade in, a fade out and one frame more.
pub open spec fn long_enough(sampdur: int, chans: int) -> bool {
    sampdur >= SYNTH_SPLICELEN * chans * 2 + chans
}

/// Checks that an output of `sampdur` samples in `chans` channels is long
/// enough for its fades (at 1 channel, 513 samples are; 512 are not).
pub fn check_duration(sampdur: i64, chans: u16) -> (r: Result<(), CdpError>)
    ensures
        long_enough(sampdur as int, chans as int) ==> r is Ok,
        !long_enough(sampdur as int, chans as int) ==> (r matches Err(e) && e.category
            == ExitCategory::DataError && e.message@
            == "Specified output duration is less then available splicing length."@),
{
    let c = chans as i64;
    if sampdur < SYNTH_SPLICELEN * c * 2 + c {
        Err(CdpError::new(ExitCategory::DataError, "Specified output duration is less then available splicing length."))
    } else {
        Ok(())
    }
}

} // verus!
