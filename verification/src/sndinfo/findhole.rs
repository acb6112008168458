//! `sndinfo findhole`: the largest low-level hole of a sound file, that is
//! the longest run of samples below a threshold that the signal climbs out
//! of again. Which samples lie below the threshold is decided by the
//! caller; this module finds the hole in those flags.

use vstd::prelude::*;

verus! {

/// The greeting printed ahead of a bare `sndinfo findhole`.
pub const GREETING: &'static str = "CDP Release 7.1 2016\n";

/// The usage text of `sndinfo findhole`.
pub const USAGE: &'static str = "CDP Release 7.1 2016
FIND LARGEST LOW LEVEL HOLE IN A SOUNDFILE

USAGE: sndreport findhole infile [-tthreshold]

THRESHOLD  hole only if level falls and stays below threshold (default: 0).
";

/// Whether samples `s .. s + n` form a closed hole of `below`: all of them
/// below, the one before (if any) not, and the one after present and not
/// below. A run that reaches the end of the file is not closed.
pub open spec fn closed_hole(below: Seq<bool>, s: int, n: int) -> bool {
    &&& n >= 1
    &&& 0 <= s
    &&& s + n < below.len()
    &&& forall|k: int| s <= k < s + n ==> below[k]
    &&& (s == 0 || !below[s - 1])
    &&& !below[s + n]
}

/// Whether `(size, start)` is the largest hole of `below`: the longest
/// closed hole, the first of the longest ones where several are as long,
/// or `(0, 0)` where there is none.
pub open spec fn is_largest_hole(below: Seq<bool>, size: int, start: int) -> bool {
    if exists|s: int, n: int| closed_hole(below, s, n) {
        &&& closed_hole(below, start, size)
        &&& forall|s: int, n: int|
            closed_hole(below, s, n) ==> n < size || (n == size && s >= start)
    } else {
        size == 0 && start == 0
    }
}

/// The size and start of the largest hole of `below`, counted in samples.
pub fn largest_hole(below: &Vec<bool>) -> (r: (usize, usize))
    ensures
        is_largest_hole(below@, r.0 as int, r.1 as int),
{
    let mut hole_size: usize = 0;
    let mut hole_samp: usize = 0;
    let mut max_size: usize = 0;
    let mut max_samp: usize = 0;
    let mut i: usize = 0;
    while i < below.len()
        invariant
            i <= below@.len(),
            hole_size > 0 ==> hole_samp + hole_size == i && (hole_samp == 0 || !below@[hole_samp - 1])
                && forall|k: int| hole_samp <= k < i ==> below@[k],
            hole_size == 0 ==> (i == 0 || !below@[i - 1]),
            max_size == 0 ==> max_samp == 0 && forall|s: int, n: int|
                closed_hole(below@, s, n) ==> s + n >= i,
            max_size > 0 ==> closed_hole(below@, max_samp as int, max_size as int) && max_samp
                + max_size < i,
            forall|s: int, n: int|
                closed_hole(below@, s, n) && s + n < i ==> n < max_size || (n == max_size && s
                    >= max_samp),
        decreases below@.len() - i,
    {
        let b = below[i];
        if hole_size == 0 {
            if b {
                hole_size = 1;
                hole_samp = i;
            }
        } else if b {
            hole_size = hole_size + 1;
        } else {
            proof {
                assert(closed_hole(below@, hole_samp as int, hole_size as int));
                assert forall|s: int, n: int| closed_hole(below@, s, n) && s + n == i implies s
                    == hole_samp && n == hole_size by {
                    if s < hole_samp {
                        assert(below@[hole_samp - 1]);
                    } else if s > hole_samp {
                        assert(below@[s - 1]);
                    }
                }
                if max_size > 0 {
                    let e = max_samp + max_size;
                    if e >= hole_samp {
                        assert(below@[e]);
                    }
                }
            }
            if hole_size > max_size {
                max_size = hole_size;
                max_samp = hole_samp;
            }
            hole_size = 0;
        }
        i = i + 1;
    }
    proof {
        if exists|s: int, n: int| closed_hole(below@, s, n) {
            let (s, n) = choose|s: int, n: int| closed_hole(below@, s, n);
            assert(s + n < i);
        }
    }
    (max_size, max_samp)
}

} // verus!
