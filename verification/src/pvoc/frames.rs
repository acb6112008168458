//! How many analysis frames the phase vocoder produces for an input.

use vstd::prelude::*;

verus! {

/// The number of analysis frames for `num_samples` input samples at half
/// window length `anal_win_len` and decimation `d`: the frames start at
/// `-(anal_win_len / d) * d` and every `d` samples after, for as long as
/// they start before `num_samples + anal_win_len`.
pub open spec fn frames_of(num_samples: int, anal_win_len: int, d: int) -> int {
    let start = -(anal_win_len / d) * d;
    let end = num_samples + anal_win_len;
    if start < end {
        (end - start + d - 1) / d
    } else {
        0
    }
}

/// The number of frames is the number of frame starts before the end.
pub proof fn lemma_frames_of(num_samples: int, anal_win_len: int, d: int)
    requires
        num_samples >= 0,
        anal_win_len >= 0,
        d > 0,
    ensures
        frames_of(num_samples, anal_win_len, d) >= 0,
        -(anal_win_len / d) * d + (frames_of(num_samples, anal_win_len, d) - 1) * d < num_samples
            + anal_win_len || frames_of(num_samples, anal_win_len, d) == 0,
        -(anal_win_len / d) * d + frames_of(num_samples, anal_win_len, d) * d >= num_samples
            + anal_win_len,
{
    let start = -(anal_win_len / d) * d;
    let end = num_samples + anal_win_len;
    assert(start <= 0) by (nonlinear_arith)
        requires
            start == -(anal_win_len / d) * d,
            anal_win_len >= 0,
            d > 0,
    ;
    if start < end {
        let n = (end - start + d - 1) / d;
        assert(start + (n - 1) * d < end && start + n * d >= end) by (nonlinear_arith)
            requires
                n == (end - start + d - 1) / d,
                start < end,
                d > 0,
        ;
    }
}

/// The number of analysis frames the phase vocoder produces for
/// `num_samples` samples, at half window length `anal_win_len` and
/// decimation `d` (4410 samples at 512 and 128: 43 frames).
pub fn frame_count(num_samples: usize, anal_win_len: usize, d: usize) -> (r: usize)
    requires
        d > 0,
        num_samples + anal_win_len <= i64::MAX,
        frames_of(num_samples as int, anal_win_len as int, d as int) <= usize::MAX,
    ensures
        r as int == frames_of(num_samples as int, anal_win_len as int, d as int),
{
    assert((anal_win_len as int / d as int) * d as int <= anal_win_len as int) by (nonlinear_arith)
        requires
            d > 0,
            anal_win_len >= 0,
    ;
    let back = (anal_win_len / d) * d;
    let end = num_samples as u128 + anal_win_len as u128;
    let span = end + back as u128;
    if span == 0 {
        return 0;
    }
    let count = (span + d as u128 - 1) / d as u128;
    assert(-(anal_win_len as int / d as int) * d as int == -(back as int)) by (nonlinear_arith)
        requires
            back == (anal_win_len / d) * d,
    ;
    count as usize
}

} // verus!
