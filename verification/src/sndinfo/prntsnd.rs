//! `sndreport prntsnd infile outtextfile starttime endtime`: prints the
//! samples of a stretch of a sound file, one frame per line. The times are
//! turned into frame numbers by the caller (rounded to the nearest frame);
//! this module checks the stretch and lays out the lines.

use crate::error::{CdpError, ExitCategory};
use vstd::prelude::*;

verus! {

/// The greeting printed ahead of a bare `sndreport prntsnd`.
pub const GREETING: &'static str = "CDP Release 7.1 2016\n";

/// The usage text of `sndreport prntsnd`.
pub const USAGE: &'static str = "CDP Release 7.1 2016
PRINT SOUND SAMPLE DATA TO A TEXTFILE

USAGE: sndreport prntsnd infile outtextfile starttime endtime

CARE!!! large quantities of data.
";

/// The outcome of a stretch from frame `start_frame` to `end_frame` of a
/// file with `chans` channels and `total` samples: the first sample and
/// the end sample (clipped to the file), or the error.
pub open spec fn span_outcome(start_frame: int, end_frame: int, chans: int, total: int) -> Result<
    (int, int),
    Seq<char>,
> {
    let start = start_frame * chans;
    let end = end_frame * chans;
    if start >= end {
        Err("Incompatible start and end times.\n"@)
    } else if start >= total {
        Err("Start time is at end of file: can't proceed.\n"@)
    } else {
        Ok((start, if end < total {
            end
        } else {
            total
        }))
    }
}

/// Checks the stretch from frame `start_frame` to frame `end_frame` and
/// gives its first sample and its end sample.
pub fn prntsnd_span(start_frame: usize, end_frame: usize, chans: usize, total: usize) -> (r: Result<
    (usize, usize),
    CdpError,
>)
    requires
        start_frame * chans <= usize::MAX,
        end_frame * chans <= usize::MAX,
    ensures
        match span_outcome(start_frame as int, end_frame as int, chans as int, total as int) {
            Ok((s, e)) => r matches Ok(p) && p.0 == s && p.1 == e,
            Err(message) => r matches Err(e) && e.category == ExitCategory::DataError && e.message@
                == message,
        },
{
    let start = start_frame * chans;
    let end = end_frame * chans;
    if start >= end {
        return Err(CdpError::new(ExitCategory::DataError, "Incompatible start and end times.\n"));
    }
    if start >= total {
        return Err(
            CdpError::new(ExitCategory::DataError, "Start time is at end of file: can't proceed.\n"),
        );
    }
    Ok((start, if end < total {
        end
    } else {
        total
    }))
}

/// One printed line: its frame number, the index of its first sample, and
/// how many of its samples exist.
#[derive(Debug, Clone, Copy, PartialEq, Eq, Structural)]
pub struct Row {
    pub frame: usize,
    pub first: usize,
    pub count: usize,
}

/// The lines printed for samples `start .. end` of a file of `chans`
/// channels and `total` samples: one every `chans` samples, numbered from
/// the frame of `start`, each with the channels that exist.
pub fn prntsnd_rows(start: usize, end: usize, chans: usize, total: usize) -> (r: Vec<Row>)
    requires
        chans > 0,
        end <= total,
        start < end,
    ensures
        r@.len() * chans + start >= end,
        r@.len() > 0 && (r@.len() - 1) * chans + start < end,
        forall|k: int|
            0 <= k < r@.len() ==> r@[k].frame == start / chans + k && r@[k].first == start + k
                * chans && r@[k].count == (if total - r@[k].first < chans {
                total - r@[k].first
            } else {
                chans as int
            }),
{
    let mut r: Vec<Row> = Vec::new();
    let mut frame = start / chans;
    let mut samp = start;
    assert(r@.len() * chans == 0) by (nonlinear_arith)
        requires
            r@.len() == 0,
    ;
    while samp < end
        invariant
            chans > 0,
            end <= total,
            start < end,
            samp == start + r@.len() * chans,
            frame == start / chans + r@.len(),
            r@.len() == 0 || (r@.len() - 1) * chans + start < end,
            forall|k: int|
                0 <= k < r@.len() ==> r@[k].frame == start / chans + k && r@[k].first == start + k
                    * chans && r@[k].count == (if total - r@[k].first < chans {
                    total - r@[k].first
                } else {
                    chans as int
                }),
        decreases end - samp,
    {
        let count = if total - samp < chans {
            total - samp
        } else {
            chans
        };
        let ghost n = r@.len();
        r.push(Row { frame, first: samp, count });
        proof {
            assert((n + 1) * chans == n * chans + chans) by (nonlinear_arith);
        }
        if end - samp <= chans {
            return r;
        }
        assert(frame <= samp) by (nonlinear_arith)
            requires
                samp == start + n * chans,
                frame == start / chans + n,
                chans > 0,
                n >= 0,
        ;
        samp = samp + chans;
        frame = frame + 1;
    }
    r
}

} // verus!
