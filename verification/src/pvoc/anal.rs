//! `pvoc anal mode infile outfile [-cpoints] [-ooverlap]`: the analysis
//! modes and the resolution of the analysis window and decimation from the
//! command-line flags.

use crate::sound::SampleKind;
use vstd::prelude::*;

verus! {

/// What `pvoc anal` writes.
#[derive(Debug, Clone, Copy, PartialEq, Eq, Structural)]
pub enum Mode {
    Standard,
    EnvelopeOnly,
    MagnitudeOnly,
}

/// The highest mode number of `pvoc anal`.
pub const MAX_MODE: u32 = 3;

/// The usage text of `pvoc anal`.
pub const USAGE: &'static str = "CDP Release 7.1 2016
CONVERT SOUNDFILE TO SPECTRAL FILE

USAGE: pvoc anal  mode infile outfile [-cpoints] [-ooverlap]

MODES ARE....
1) STANDARD ANALYSIS
2) OUTPUT SPECTRAL ENVELOPE VALS ONLY
3) OUTPUT SPECTRAL MAGNITUDE VALS ONLY
POINTS   No of analysis points (2-32768 (power of 2)): default 1024
         More points give better freq resolution
         but worse time-resolution (e.g. rapidly changing spectrum).
OVERLAP  Filter overlap factor (1-4): default 3
";

/// The number of analysis points without `-c`.
pub const DEFAULT_CHANS: i64 = 1024;

/// The overlap factor without `-o`.
pub const DEFAULT_OVERLAP: i64 = 3;

/// The ratio of window length to decimation.
pub const PVOC_CONSTANT_A: i64 = 8;

/// The mode numbered `mode` (1 to 3).
pub open spec fn mode_of(mode: u32) -> Option<Mode> {
    if mode == 1 {
        Some(Mode::Standard)
    } else if mode == 2 {
        Some(Mode::EnvelopeOnly)
    } else if mode == 3 {
        Some(Mode::MagnitudeOnly)
    } else {
        None
    }
}

impl Mode {
    /// The mode numbered `mode`, or `None`.
    pub fn from_number(mode: u32) -> (r: Option<Mode>)
        ensures
            r == mode_of(mode),
    {
        match mode {
            1 => Some(Mode::Standard),
            2 => Some(Mode::EnvelopeOnly),
            3 => Some(Mode::MagnitudeOnly),
            _ => None,
        }
    }
}

/// The analysis window length `M`, channel count `N` and decimation `D`
/// for the `-c` and `-o` values given: `N` is the point count rounded up
/// to even; `M` is `4N`, `2N`, `N` or `N/2` for overlap 1 to 4; `D` is
/// `M / 8`, but at least 1.
pub open spec fn analysis_params(chans_flag: Option<i64>, overlap_flag: Option<i64>) -> (int, int, int) {
    let c = match chans_flag {
        Some(c) => c as int,
        None => DEFAULT_CHANS as int,
    };
    let n = c + c % 2;
    let o = match overlap_flag {
        Some(o) => o as int,
        None => DEFAULT_OVERLAP as int,
    };
    let m = if o == 1 {
        4 * n
    } else if o == 2 {
        2 * n
    } else if o == 3 {
        n
    } else {
        n / 2
    };
    let d = if m / 8 == 0 {
        1
    } else {
        m / 8
    };
    (m, n, d)
}

/// The decimation is the window length divided by 8, and at least 1; the
/// channel count is the point count rounded up to even (1024 without
/// `-c`); the window length is 4, 2, 1 or 1/2 times the channel count for
/// overlap 1, 2, 3 (the default) or 4.
pub proof fn lemma_analysis_params(chans_flag: Option<i64>, overlap_flag: Option<i64>)
    requires
        chans_flag matches Some(c) ==> 0 <= c,
        overlap_flag matches Some(o) ==> 1 <= o <= 4,
    ensures
        ({
            let (m, n, d) = analysis_params(chans_flag, overlap_flag);
            &&& d == (if m / 8 == 0 {
                1
            } else {
                m / 8
            })
            &&& d >= 1
            &&& n % 2 == 0
            &&& (chans_flag matches Some(c) ==> n == c + c % 2)
            &&& (chans_flag is None ==> n == 1024)
            &&& (overlap_flag == Some(1i64) ==> m == 4 * n)
            &&& (overlap_flag == Some(2i64) ==> m == 2 * n)
            &&& (overlap_flag == Some(3i64) || overlap_flag is None ==> m == n)
            &&& (overlap_flag == Some(4i64) ==> m == n / 2)
        }),
{
}

/// The window length, channel count and decimation for the `-c` and `-o`
/// values given (neither: 1024, 1024 and 128).
pub fn resolve_m_n_d(chans_flag: Option<i64>, overlap_flag: Option<i64>) -> (r: (usize, usize, usize))
    requires
        chans_flag matches Some(c) ==> 0 <= c <= i64::MAX / 4 - 1,
        overlap_flag matches Some(o) ==> 1 <= o <= 4,
        analysis_params(chans_flag, overlap_flag).0 <= usize::MAX,
        analysis_params(chans_flag, overlap_flag).1 <= usize::MAX,
    ensures
        (r.0 as int, r.1 as int, r.2 as int) == analysis_params(chans_flag, overlap_flag),
        r.2 == (if r.0 / 8 == 0 {
            1
        } else {
            r.0 / 8
        }),
        r.1 % 2 == 0,
        chans_flag matches Some(c) ==> r.1 == c + c % 2,
        chans_flag is None ==> r.1 == 1024,
        overlap_flag == Some(1i64) ==> r.0 == 4 * r.1,
        overlap_flag == Some(2i64) ==> r.0 == 2 * r.1,
        overlap_flag == Some(3i64) || overlap_flag is None ==> r.0 == r.1,
        overlap_flag == Some(4i64) ==> r.0 == r.1 / 2,
{
    let mut chancnt: i64 = match chans_flag {
        Some(c) => c,
        None => DEFAULT_CHANS,
    };
    chancnt = chancnt + chancnt % 2;
    let overlap = match overlap_flag {
        Some(o) => o,
        None => DEFAULT_OVERLAP,
    };
    let m: i64 = if overlap == 1 {
        4 * chancnt
    } else if overlap == 2 {
        2 * chancnt
    } else if overlap == 3 {
        chancnt
    } else {
        chancnt / 2
    };
    let mut d = m / PVOC_CONSTANT_A;
    if d == 0 {
        d = 1;
    }
    (m as usize, chancnt as usize, d as usize)
}

/// The sample-size code stored as the "original sampsize" of an analysis
/// file: 0 for 16-bit, 1 for float input.
pub fn original_sampsize_code(sample: SampleKind) -> (r: i32)
    requires
        sample != SampleKind::Other,
    ensures
        r == (if sample == SampleKind::Short16 {
            0i32
        } else {
            1i32
        }),
{
    match sample {
        SampleKind::Short16 => 0,
        _ => 1,
    }
}

} // verus!
