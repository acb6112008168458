//! `housekeep respec`: converting between 16-bit and float samples (mode 2)
//! and imposing a new sample rate or channel count on unchanged sample data
//! (mode 3). Mode 1, resampling, is not implemented.

use crate::error::{CdpError, ExitCategory};
use crate::housekeep::{check_wave_scope, wave_scope_error};
use crate::sound::{FileKindTag, SampleKind, SoundFormat};
use crate::text::{push_signed_decimal, push_str, signed_decimal};
use vstd::prelude::*;
use vstd::string::*;

verus! {

/// The greeting printed ahead of a bare `housekeep respec`.
pub const GREETING: &'static str = "CDP Release 7.1 2016\n";

/// The usage text of `housekeep respec`.
pub const USAGE: &'static str = "CDP Release 7.1 2016
ALTER THE SPECIFICATION OF A SOUNDFILE.

USAGE: housekeep respec 1 infile outfile new_samplerate
OR:    housekeep respec 2 infile outfile
OR:    housekeep respec 3 infile outfile [-ssrate] [-cchannels]
MODES ARE

1) RESAMPLE  at some different sampling rate.
           New sampling rate must be one of...
           96000,88200,48000,24000,44100,22050,32000,16000

2) CONVERT FROM INTEGER TO FLOAT SAMPLES, OR VICE VERSA

3) CHANGE PROPERTIES OF SOUND: (USE WITH CAUTION!!)
      SRATE is the new sample rate to impose.
           NB: this does NOT RESAMPLE the data.
           Simply causes original data to be read at different srate.
           Sound has same no of samples, but different duration,
           and will appear to be transposed in pitch.
      CHANNELS is the new channel count to impose.
           NB: this does NOT RECHANNEL the data.
           Hence e.g. a stereo file will appear twice as long.
";

/// The highest mode number of `housekeep respec`.
pub const MAX_MODE: u32 = 3;

/// The modes of `housekeep respec` that are implemented.
#[derive(Debug, Clone, Copy, PartialEq, Eq, Structural)]
pub enum Mode {
    Convert,
    Reprop,
}

/// The mode numbered `mode` (2 or 3).
pub open spec fn mode_of(mode: u32) -> Option<Mode> {
    if mode == 2 {
        Some(Mode::Convert)
    } else if mode == 3 {
        Some(Mode::Reprop)
    } else {
        None
    }
}

impl Mode {
    /// The mode numbered `mode`, or `None` (mode 1 among them).
    pub fn from_number(mode: u32) -> (r: Option<Mode>)
        ensures
            r == mode_of(mode),
    {
        match mode {
            2 => Some(Mode::Convert),
            3 => Some(Mode::Reprop),
            _ => None,
        }
    }
}

/// The error of a re-specification whose output file already exists.
pub fn outfile_exists_error(path: &str) -> (e: CdpError)
    ensures
        e.category == ExitCategory::SystemError,
        e.message@ == "Unable to open outfile "@ + path@ + "\n"@,
{
    let mut message = String::from_str("Unable to open outfile ");
    push_str(&mut message, path);
    push_str(&mut message, "\n");
    CdpError { category: ExitCategory::SystemError, message }
}

/// The sample encoding a conversion writes: float for 16-bit input and
/// 16-bit for float input.
pub open spec fn converted(sample: SampleKind) -> SampleKind {
    match sample {
        SampleKind::Short16 => SampleKind::Float32,
        _ => SampleKind::Short16,
    }
}

/// Checks the input of a conversion (mode 2) and gives the sample encoding
/// of its output.
pub fn convert_target(format: SoundFormat) -> (r: Result<SampleKind, CdpError>)
    ensures
        match wave_scope_error("housekeep respec"@, format) {
            None => r == Ok::<SampleKind, CdpError>(converted(format.sample)),
            Some((category, message)) => r matches Err(e) && e.category == category && e.message@
                == message,
        },
{
    check_wave_scope("housekeep respec", format)?;
    match format.sample {
        SampleKind::Short16 => Ok(SampleKind::Float32),
        _ => Ok(SampleKind::Short16),
    }
}

/// Mode 2 toggles: converting the output of a conversion gives the input's
/// encoding back (16-bit to float to 16-bit, float to 16-bit to float), and
/// the output is itself a file mode 2 takes.
pub proof fn lemma_convert_toggles(f: SoundFormat)
    requires
        wave_scope_error("housekeep respec"@, f) is None,
    ensures
        ({
            let g = SoundFormat { sample: converted(f.sample), ..f };
            &&& wave_scope_error("housekeep respec"@, g) is None
            &&& converted(g.sample) == f.sample
            &&& g.sample != f.sample
            &&& (f.sample == SampleKind::Short16 ==> g.sample == SampleKind::Float32)
            &&& (f.sample == SampleKind::Float32 ==> g.sample == SampleKind::Short16)
        }),
{
}

/// Whether `channels` is a channel count a file may be given.
pub open spec fn valid_channel_count(channels: int) -> bool {
    channels == 1 || channels == 2 || channels == 4 || channels == 6 || channels == 8 || channels
        == 16
}

/// Whether `rate` is a sample rate a file may be given.
pub open spec fn valid_sample_rate(rate: int) -> bool {
    rate == 96000 || rate == 88200 || rate == 48000 || rate == 44100 || rate == 32000 || rate
        == 24000 || rate == 22050 || rate == 16000
}

/// The outcome of mode 3 for an input of format `f` with the `-s` and `-c`
/// values given: the scope error, "no change" when neither the rate, the
/// channel count nor (for a float input) the encoding would change, an
/// invalid channel count, an invalid rate, or else the channel count and
/// rate to write (always as 16-bit samples).
pub open spec fn reprop_outcome(f: SoundFormat, srate: Option<i64>, channels: Option<i64>) -> Result<
    (int, int),
    (ExitCategory, Seq<char>),
> {
    let rate = match srate {
        Some(s) => s as int,
        None => f.sample_rate as int,
    };
    let chans = match channels {
        Some(c) => c as int,
        None => f.channels as int,
    };
    match wave_scope_error("housekeep respec"@, f) {
        Some(e) => Err(e),
        None => if rate == f.sample_rate && chans == f.channels && f.sample == SampleKind::Float32 {
            Err((ExitCategory::GoalFailed, "NO CHANGE to input file.\n"@))
        } else if !valid_channel_count(chans) {
            Err((ExitCategory::DataError, "\nInvalid channel count ["@ + signed_decimal(chans) + "]"@))
        } else if !valid_sample_rate(rate) {
            Err((ExitCategory::DataError, "\nInvalid sample rate ["@ + signed_decimal(rate) + "]"@))
        } else {
            Ok((chans, rate))
        },
    }
}

/// Mode 3 takes every standard sample rate (96000, 88200, 48000, 44100,
/// 32000, 24000, 22050, 16000 Hz) and channel count (1, 2, 4, 6, 8, 16):
/// for a 16-bit or float wave input and any of them, unless nothing would
/// change, the outcome is that channel count and that rate.
pub proof fn lemma_standard_formats_accepted(f: SoundFormat, rate: i64, chans: i64)
    requires
        f.kind == FileKindTag::Wave,
        f.sample != SampleKind::Other,
        rate == 96000 || rate == 88200 || rate == 48000 || rate == 44100 || rate == 32000 || rate
            == 24000 || rate == 22050 || rate == 16000,
        chans == 1 || chans == 2 || chans == 4 || chans == 6 || chans == 8 || chans == 16,
        !(rate == f.sample_rate && chans == f.channels && f.sample == SampleKind::Float32),
    ensures
        reprop_outcome(f, Some(rate), Some(chans)) == Ok::<(int, int), (ExitCategory, Seq<char>)>(
            (chans as int, rate as int),
        ),
{
}

/// Mode 3 refuses every other rate: a rate outside the standard list, with
/// a standard channel count, is an invalid sample rate, and a channel count
/// outside the standard list is an invalid channel count.
pub proof fn lemma_other_formats_refused(f: SoundFormat, rate: i64, chans: i64)
    requires
        f.kind == FileKindTag::Wave,
        f.sample != SampleKind::Other,
        !(rate == f.sample_rate && chans == f.channels && f.sample == SampleKind::Float32),
    ensures
        !(chans == 1 || chans == 2 || chans == 4 || chans == 6 || chans == 8 || chans == 16) ==> reprop_outcome(
            f,
            Some(rate),
            Some(chans),
        ) is Err && reprop_outcome(f, Some(rate), Some(chans))->Err_0.0 == ExitCategory::DataError,
        (chans == 1 || chans == 2 || chans == 4 || chans == 6 || chans == 8 || chans == 16) && !(rate
            == 96000 || rate == 88200 || rate == 48000 || rate == 44100 || rate == 32000 || rate
            == 24000 || rate == 22050 || rate == 16000) ==> reprop_outcome(f, Some(rate), Some(chans))
            == Err::<(int, int), (ExitCategory, Seq<char>)>(
            (ExitCategory::DataError, "\nInvalid sample rate ["@ + signed_decimal(rate as int) + "]"@),
        ),
{
}

/// Decides mode 3 for an input of format `format`: the channel count and
/// sample rate to write, or the error.
pub fn reprop_target(format: SoundFormat, srate: Option<i64>, channels: Option<i64>) -> (r: Result<
    (u16, u32),
    CdpError,
>)
    ensures
        match reprop_outcome(format, srate, channels) {
            Ok((c, s)) => r matches Ok(t) && t.0 as int == c && t.1 as int == s,
            Err((category, message)) => r matches Err(e) && e.category == category && e.message@
                == message,
        },
        format.kind == FileKindTag::Wave && format.sample != SampleKind::Other && srate is Some
            && channels is Some && (srate.unwrap() == 96000 || srate.unwrap() == 88200
            || srate.unwrap() == 48000 || srate.unwrap() == 44100 || srate.unwrap() == 32000
            || srate.unwrap() == 24000 || srate.unwrap() == 22050 || srate.unwrap() == 16000) && (
        channels.unwrap() == 1 || channels.unwrap() == 2 || channels.unwrap() == 4 || channels.unwrap()
            == 6 || channels.unwrap() == 8 || channels.unwrap() == 16) && !(srate.unwrap()
            == format.sample_rate && channels.unwrap() == format.channels && format.sample
            == SampleKind::Float32) ==> (r matches Ok(t) && t.0 as int == channels.unwrap() && t.1 as int
            == srate.unwrap()),
{
    check_wave_scope("housekeep respec", format)?;
    let rate: i64 = match srate {
        Some(s) => s,
        None => format.sample_rate as i64,
    };
    let chans: i64 = match channels {
        Some(c) => c,
        None => format.channels as i64,
    };
    if rate == format.sample_rate as i64 && chans == format.channels as i64 && format.sample
        == SampleKind::Float32 {
        return Err(CdpError::new(ExitCategory::GoalFailed, "NO CHANGE to input file.\n"));
    }
    if !(chans == 1 || chans == 2 || chans == 4 || chans == 6 || chans == 8 || chans == 16) {
        let mut message = String::from_str("\nInvalid channel count [");
        push_signed_decimal(&mut message, chans);
        push_str(&mut message, "]");
        return Err(CdpError { category: ExitCategory::DataError, message });
    }
    if !(rate == 96000 || rate == 88200 || rate == 48000 || rate == 44100 || rate == 32000 || rate
        == 24000 || rate == 22050 || rate == 16000) {
        let mut message = String::from_str("\nInvalid sample rate [");
        push_signed_decimal(&mut message, rate);
        push_str(&mut message, "]");
        return Err(CdpError { category: ExitCategory::DataError, message });
    }
    Ok((chans as u16, rate as u32))
}

} // verus!
