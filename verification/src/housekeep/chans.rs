//! `housekeep chans`: extracting one channel (mode 1), zeroing one channel
//! (mode 3), mixing stereo down to mono (mode 4) and doubling mono into
//! stereo (mode 5).
//!
//! The sample movements are generic over the sample type: they place and
//! copy samples and never compute with them. Mixing two channels into one
//! computes with the samples and is done by the caller on the pairs that
//! [`stereo_pairs`] gives.

use crate::error::{CdpError, ExitCategory};
use crate::sound::{FileKindTag, SampleKind, SoundFormat};
use crate::text::{last_index_of, last_index_of_exec, push_signed_decimal, push_str, signed_decimal};
use crate::housekeep::{check_wave_scope, wave_scope_error};
use vstd::prelude::*;
use vstd::string::*;

verus! {

/// The greeting printed ahead of a bare `housekeep chans`.
pub const GREETING: &'static str = "CDP Release 7.1 2016\n";

/// The usage text of `housekeep chans`.
pub const USAGE: &'static str = "CDP Release 7.1 2016
EXTRACT OR CONVERT CHANNELS OF SOUNDFILE.

USAGE: housekeep chans 1 infile channo
OR:    housekeep chans 2 infile 
OR:    housekeep chans 3 infile outfile channo
OR:    housekeep chans 4 infile outfile [-p]
OR:    housekeep chans 5 infile outfile

MODES ARE
1) EXTRACT A CHANNEL
         channo is channel to extract
         outfile is named inname_c1 (for channel 1) etc.
2) EXTRACT ALL CHANNELS
         outfiles are named inname_c1 (for channel 1) etc.
3) ZERO ONE CHANNEL
         channo is channel to zero
         mono file goes to just one side of stereo outfile.
         multichannel files have one channel zeroed out.
4) MIX DOWN TO MONO
         -p inverts phase of 2nd stereo channel before mixing.
         (phase inversion has no effect with non-stereo files).
5) MONO TO STEREO
         Creates a 2-channel equivalent of mono infile.
";

/// The highest mode number of `housekeep chans`.
pub const MAX_MODE: u32 = 5;

/// The modes of `housekeep chans` that are implemented.
#[derive(Debug, Clone, Copy, PartialEq, Eq, Structural)]
pub enum Mode {
    ExtractChannel,
    ZeroChannel,
    MixToMono,
    MonoToStereo,
}

/// The mode numbered `mode`; mode 2 is not implemented.
pub open spec fn mode_of(mode: u32) -> Option<Mode> {
    if mode == 1 {
        Some(Mode::ExtractChannel)
    } else if mode == 3 {
        Some(Mode::ZeroChannel)
    } else if mode == 4 {
        Some(Mode::MixToMono)
    } else if mode == 5 {
        Some(Mode::MonoToStereo)
    } else {
        None
    }
}

impl Mode {
    /// The mode numbered `mode`, or `None` (mode 2 among them).
    pub fn from_number(mode: u32) -> (r: Option<Mode>)
        ensures
            r == mode_of(mode),
    {
        match mode {
            1 => Some(Mode::ExtractChannel),
            3 => Some(Mode::ZeroChannel),
            4 => Some(Mode::MixToMono),
            5 => Some(Mode::MonoToStereo),
            _ => None,
        }
    }
}

/// The index of the last character of `s` that ends a directory part
/// (`/`, `\` or `:`).
pub open spec fn last_separator(s: Seq<char>) -> Option<int>
    decreases s.len(),
{
    if s.len() == 0 {
        None
    } else if s.last() == '/' || s.last() == '\\' || s.last() == ':' {
        Some(s.len() - 1)
    } else {
        last_separator(s.drop_last())
    }
}

/// The output name of channel `channo` of `path`: `_c` and the number
/// inserted before the extension of the file-name part, or appended where
/// that part has no extension (a leading dot is no extension).
pub open spec fn channel_filename(path: Seq<char>, channo: int) -> Seq<char> {
    let sep = match last_separator(path) {
        Some(k) => k + 1,
        None => 0,
    };
    let base = path.skip(sep);
    match last_index_of(base, '.') {
        Some(dot) if dot > 0 => path.take(sep + dot) + "_c"@ + signed_decimal(channo) + path.skip(
            sep + dot,
        ),
        _ => path + "_c"@ + signed_decimal(channo),
    }
}

/// The index of the last directory separator of `s`.
fn last_separator_exec(s: &str) -> (r: Option<usize>)
    ensures
        r is Some <==> last_separator(s@) is Some,
        r matches Some(k) ==> last_separator(s@) == Some(k as int) && k < s@.len(),
{
    let mut i = s.unicode_len();
    assert(s@.take(s@.len() as int) =~= s@);
    while i > 0
        invariant
            i <= s@.len(),
            last_separator(s@) == last_separator(s@.take(i as int)),
        decreases i,
    {
        let c = s.get_char(i - 1);
        assert(s@.take(i as int).last() == c);
        if c == '/' || c == '\\' || c == ':' {
            return Some(i - 1);
        }
        assert(s@.take(i as int).drop_last() =~= s@.take(i - 1));
        i = i - 1;
    }
    None
}

/// The output name of channel `channo` of `infile_path` (`marimba.wav`,
/// channel 1: `marimba_c1.wav`).
pub fn numbered_channel_filename(infile_path: &str, channo: i64) -> (r: String)
    ensures
        r@ == channel_filename(infile_path@, channo as int),
{
    let len = infile_path.unicode_len();
    let sep = match last_separator_exec(infile_path) {
        Some(k) => k + 1,
        None => 0,
    };
    let base = infile_path.substring_char(sep, len);
    assert(base@ =~= infile_path@.skip(sep as int));
    match last_index_of_exec(base, '.') {
        Some(dot) if dot > 0 => {
            assert(last_index_of(infile_path@.skip(sep as int), '.') == Some(dot as int));
            let mut r = String::from_str(infile_path.substring_char(0, sep + dot));
            push_str(&mut r, "_c");
            push_signed_decimal(&mut r, channo);
            push_str(&mut r, infile_path.substring_char(sep + dot, len));
            proof {
                assert(infile_path@.subrange(sep + dot, len as int) =~= infile_path@.skip(sep + dot));
                assert(infile_path@.subrange(0, sep + dot) =~= infile_path@.take(sep + dot));
            }
            assert(r@ == infile_path@.take(sep + dot) + "_c"@ + signed_decimal(channo as int)
                + infile_path@.skip(sep + dot));
            r
        },
        _ => {
            let mut r = String::from_str(infile_path);
            push_str(&mut r, "_c");
            push_signed_decimal(&mut r, channo);
            r
        },
    }
}

/// The error each mode of `housekeep chans` stops at for an input of
/// format `f`, before any output is written: the scope of what is
/// implemented, then each mode's channel-count rule.
pub open spec fn chans_format_error(mode: Mode, f: SoundFormat) -> Option<(ExitCategory, Seq<char>)> {
    match wave_scope_error("housekeep chans"@, f) {
        Some(e) => Some(e),
        None => match mode {
            Mode::ExtractChannel => None,
            Mode::ZeroChannel => if f.channels > 2 {
                Some(
                    (
                        ExitCategory::ProgramError,
                        "housekeep chans: zeroing a channel in more than two is not implemented yet"@,
                    ),
                )
            } else {
                None
            },
            Mode::MixToMono => if f.channels == 1 {
                Some((ExitCategory::GoalFailed, "This file is already mono!!\n"@))
            } else if f.channels == 2 {
                None
            } else {
                Some(
                    (
                        ExitCategory::ProgramError,
                        "housekeep chans: mixing down more than two channels is not implemented yet"@,
                    ),
                )
            },
            Mode::MonoToStereo => if f.channels == 1 {
                None
            } else if f.channels == 2 {
                Some((ExitCategory::GoalFailed, "This file is already stereo!!\n"@))
            } else {
                Some((ExitCategory::GoalFailed, "This process does not work with multichannel files!!\n"@))
            },
        },
    }
}

/// Checks that mode `mode` of `housekeep chans` handles an input of format
/// `format`.
pub fn check_chans_format(mode: Mode, format: SoundFormat) -> (r: Result<(), CdpError>)
    ensures
        match chans_format_error(mode, format) {
            None => r is Ok,
            Some((category, message)) => r matches Err(e) && e.category == category && e.message@
                == message,
        },
{
    check_wave_scope("housekeep chans", format)?;
    match mode {
        Mode::ExtractChannel => Ok(()),
        Mode::ZeroChannel => {
            if format.channels > 2 {
                Err(
                    CdpError::new(
                        ExitCategory::ProgramError,
                        "housekeep chans: zeroing a channel in more than two is not implemented yet",
                    ),
                )
            } else {
                Ok(())
            }
        },
        Mode::MixToMono => {
            if format.channels == 1 {
                Err(CdpError::new(ExitCategory::GoalFailed, "This file is already mono!!\n"))
            } else if format.channels == 2 {
                Ok(())
            } else {
                Err(
                    CdpError::new(
                        ExitCategory::ProgramError,
                        "housekeep chans: mixing down more than two channels is not implemented yet",
                    ),
                )
            }
        },
        Mode::MonoToStereo => {
            if format.channels == 1 {
                Ok(())
            } else if format.channels == 2 {
                Err(CdpError::new(ExitCategory::GoalFailed, "This file is already stereo!!\n"))
            } else {
                Err(
                    CdpError::new(
                        ExitCategory::GoalFailed,
                        "This process does not work with multichannel files!!\n",
                    ),
                )
            }
        },
    }
}

/// Whether `r` is channel `index` of interleaved `s` with `channels`
/// channels: the samples at `index`, `index + channels`, ..., for as long
/// as they exist.
pub open spec fn is_channel_of<T>(r: Seq<T>, s: Seq<T>, channels: int, index: int) -> bool {
    &&& r.len() * channels + index >= s.len()
    &&& r.len() == 0 || (r.len() - 1) * channels + index < s.len()
    &&& forall|k: int| 0 <= k < r.len() ==> r[k] == s[index + k * channels]
}

/// Whether `d` is the mono signal `m` doubled into both channels.
pub open spec fn is_doubled<T>(d: Seq<T>, m: Seq<T>) -> bool {
    &&& d.len() == 2 * m.len()
    &&& forall|k: int| 0 <= k < m.len() ==> d[2 * k] == m[k] && d[2 * k + 1] == m[k]
}

/// Whether `d` is the mono signal `m` on one side of a stereo signal whose
/// other side is `zero` throughout.
pub open spec fn is_one_sided<T>(d: Seq<T>, m: Seq<T>, zero: T, zero_first: bool) -> bool {
    &&& d.len() == 2 * m.len()
    &&& forall|k: int| 0 <= k < m.len() ==> (d[2 * k], d[2 * k + 1]) == zero_side_pair(zero_first, zero, m[k])
}

/// Taking one channel of two from a stereo signal that holds `m` at every
/// other sample starting at `index` gives `m` back.
proof fn lemma_channel_of_interleaved<T>(r: Seq<T>, d: Seq<T>, m: Seq<T>, index: int)
    requires
        index == 0 || index == 1,
        d.len() == 2 * m.len(),
        forall|k: int| 0 <= k < m.len() ==> d[2 * k + index] == m[k],
        is_channel_of(r, d, 2, index),
    ensures
        r == m,
{
    assert(r.len() == m.len());
    assert forall|k: int| 0 <= k < r.len() implies r[k] == m[k] by {
        assert(r[k] == d[index + k * 2]);
        assert(index + k * 2 == 2 * k + index);
    }
    assert(r =~= m);
}

/// Extracting either channel of a doubled mono signal gives the mono signal
/// back: mode 1 undoes mode 5.
pub proof fn lemma_extract_undoes_doubling<T>(m: Seq<T>, d: Seq<T>, r: Seq<T>, index: int)
    requires
        is_doubled(d, m),
        index == 0 || index == 1,
        is_channel_of(r, d, 2, index),
    ensures
        r == m,
{
    assert forall|k: int| 0 <= k < m.len() implies d[2 * k + index] == m[k] by {}
    lemma_channel_of_interleaved(r, d, m, index);
}

/// Extracting the side of a zeroed-channel output that was not zeroed gives
/// the mono input back.
pub proof fn lemma_extract_undoes_one_siding<T>(m: Seq<T>, d: Seq<T>, zero: T, zero_first: bool, r: Seq<T>)
    requires
        is_one_sided(d, m, zero, zero_first),
        is_channel_of(r, d, 2, if zero_first {
            1
        } else {
            0
        }),
    ensures
        r == m,
{
    let index = if zero_first {
        1int
    } else {
        0int
    };
    assert forall|k: int| 0 <= k < m.len() implies d[2 * k + index] == m[k] by {
        assert((d[2 * k], d[2 * k + 1]) == zero_side_pair(zero_first, zero, m[k]));
    }
    lemma_channel_of_interleaved(r, d, m, index);
}

/// The samples of channel `index` (0-based) of interleaved `samples` with
/// `channels` channels: those at `index`, `index + channels`, ..., for as
/// long as they exist.
pub fn extract_channel_samples<T: Copy>(samples: &Vec<T>, channels: usize, index: usize) -> (r: Vec<T>)
    requires
        channels > 0,
    ensures
        is_channel_of(r@, samples@, channels as int, index as int),
{
    let mut r: Vec<T> = Vec::new();
    let mut p: usize = index;
    assert(r@.len() * channels == 0) by (nonlinear_arith)
        requires
            r@.len() == 0,
    ;
    while p < samples.len()
        invariant
            channels > 0,
            p == index + r@.len() * channels,
            r@.len() == 0 || (r@.len() - 1) * channels + index < samples@.len(),
            forall|k: int| 0 <= k < r@.len() ==> r@[k] == samples@[index + k * channels],
        decreases samples@.len() - p,
    {
        let ghost n = r@.len();
        r.push(samples[p]);
        proof {
            assert((n + 1) * channels == n * channels + channels) by (nonlinear_arith);
            assert((r@.len() - 1) * channels == n * channels);
        }
        if samples.len() - p <= channels {
            proof {
                assert(r@.len() * channels + index >= samples@.len());
            }
            return r;
        }
        p = p + channels;
    }
    r
}

/// The two samples a mono sample `s` becomes when one side is silent.
pub open spec fn zero_side_pair<T>(zero_first: bool, zero: T, s: T) -> (T, T) {
    if zero_first {
        (zero, s)
    } else {
        (s, zero)
    }
}

/// A mono signal spread over two channels, one of them silent: `[zero, s]`
/// for each sample `s` when `zero_first`, else `[s, zero]`.
pub fn zero_one_side<T: Copy>(mono: &Vec<T>, zero: T, zero_first: bool) -> (r: Vec<T>)
    requires
        mono@.len() * 2 <= usize::MAX,
    ensures
        is_one_sided(r@, mono@, zero, zero_first),
{
    let mut r: Vec<T> = Vec::new();
    let mut k: usize = 0;
    while k < mono.len()
        invariant
            k <= mono@.len(),
            r@.len() == 2 * k,
            forall|j: int|
                0 <= j < k ==> (r@[2 * j], r@[2 * j + 1]) == zero_side_pair(zero_first, zero, mono@[j]),
        decreases mono@.len() - k,
    {
        let ghost before = r@;
        let (a, b) = if zero_first {
            (zero, mono[k])
        } else {
            (mono[k], zero)
        };
        r.push(a);
        r.push(b);
        assert forall|j: int| 0 <= j < k + 1 implies (r@[2 * j], r@[2 * j + 1]) == zero_side_pair(
            zero_first,
            zero,
            mono@[j],
        ) by {
            if j < k {
                assert(r@[2 * j] == before[2 * j]);
                assert(r@[2 * j + 1] == before[2 * j + 1]);
            }
        }
        k = k + 1;
    }
    r
}

/// Interleaved stereo `samples` with channel `zero_index` (0 or 1) silenced:
/// every sample whose position has remainder `zero_index` by 2 becomes
/// `zero`, every other one is kept.
pub fn zero_stereo_channel<T: Copy>(samples: &Vec<T>, zero: T, zero_index: usize) -> (r: Vec<T>)
    ensures
        r@.len() == samples@.len(),
        forall|i: int|
            0 <= i < samples@.len() ==> r@[i] == (if i % 2 == zero_index as int {
                zero
            } else {
                samples@[i]
            }),
{
    let mut r: Vec<T> = Vec::new();
    let mut i: usize = 0;
    while i < samples.len()
        invariant
            i <= samples@.len(),
            r@.len() == i,
            forall|j: int|
                0 <= j < i ==> r@[j] == (if j % 2 == zero_index as int {
                    zero
                } else {
                    samples@[j]
                }),
        decreases samples@.len() - i,
    {
        if i % 2 == zero_index {
            r.push(zero);
        } else {
            r.push(samples[i]);
        }
        i = i + 1;
    }
    r
}

/// A mono signal doubled into both channels of a stereo one.
pub fn duplicate_to_stereo<T: Copy>(mono: &Vec<T>) -> (r: Vec<T>)
    requires
        mono@.len() * 2 <= usize::MAX,
    ensures
        is_doubled(r@, mono@),
{
    let mut r: Vec<T> = Vec::new();
    let mut k: usize = 0;
    while k < mono.len()
        invariant
            k <= mono@.len(),
            r@.len() == 2 * k,
            forall|j: int| 0 <= j < k ==> r@[2 * j] == mono@[j] && r@[2 * j + 1] == mono@[j],
        decreases mono@.len() - k,
    {
        let ghost before = r@;
        r.push(mono[k]);
        r.push(mono[k]);
        assert forall|j: int| 0 <= j < k + 1 implies r@[2 * j] == mono@[j] && r@[2 * j + 1]
            == mono@[j] by {
            if j < k {
                assert(r@[2 * j] == before[2 * j]);
                assert(r@[2 * j + 1] == before[2 * j + 1]);
            }
        }
        k = k + 1;
    }
    r
}

/// The whole left/right frames of interleaved stereo `samples`; a trailing
/// odd sample belongs to no frame and is dropped.
pub fn stereo_pairs<T: Copy>(samples: &Vec<T>) -> (r: Vec<(T, T)>)
    ensures
        r@.len() == samples@.len() / 2,
        forall|k: int| 0 <= k < r@.len() ==> r@[k] == (samples@[2 * k], samples@[2 * k + 1]),
{
    let mut r: Vec<(T, T)> = Vec::new();
    let n = samples.len() / 2;
    let mut k: usize = 0;
    while k < n
        invariant
            n == samples@.len() / 2,
            k <= n,
            r@.len() == k,
            forall|j: int| 0 <= j < k ==> r@[j] == (samples@[2 * j], samples@[2 * j + 1]),
        decreases n - k,
    {
        assert(2 * k + 1 < samples.len());
        let i = 2 * k;
        r.push((samples[i], samples[i + 1]));
        k = k + 1;
    }
    r
}

} // verus!
