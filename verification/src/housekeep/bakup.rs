//! `housekeep bakup infile1 [infile2 ...] outfile`: concatenates sound files
//! of one format into a single file, with a second of silence after each.
//!
//! Each input contributes its samples rounded up to a whole 256-sample
//! sector, then one second of silence, itself rounded up to a sector; the
//! gap follows the last input too.

use crate::error::{CdpError, ExitCategory};
use crate::text::push_str;
use vstd::prelude::*;
use vstd::string::*;

verus! {

/// The greeting printed ahead of a bare `housekeep bakup`.
pub const GREETING: &'static str = "CDP Release 7.1 2016\n";

/// The usage text of `housekeep bakup`.
pub const USAGE: &'static str = "CDP Release 7.1 2016
CONCATENATE SOUNDFILES IN ONE BAKUP FILE, WITH SILENCES BETWEEN

USAGE: housekeep bakup infile1 [infile2 ...] outfile

";

/// The sector size the padding rounds to, in samples.
pub const F_SECSIZE: u64 = 256;

/// `samples` rounded up to a whole number of sectors.
pub open spec fn round_up(samples: int) -> int {
    ((samples + 255) / 256) * 256
}

/// Rounding up gives the least multiple of the sector size that is at
/// least `samples`.
pub proof fn lemma_round_up(samples: int)
    requires
        samples >= 0,
    ensures
        round_up(samples) % 256 == 0,
        samples <= round_up(samples) < samples + 256,
        samples % 256 == 0 ==> round_up(samples) == samples,
{
    assert(((samples + 255) / 256) * 256 % 256 == 0) by (nonlinear_arith);
    assert(samples <= ((samples + 255) / 256) * 256 < samples + 256) by (nonlinear_arith)
        requires
            samples >= 0,
    ;
    if samples % 256 == 0 {
        assert(((samples + 255) / 256) * 256 == samples) by (nonlinear_arith)
            requires
                samples % 256 == 0,
                samples >= 0,
        ;
    }
}

/// `samples` rounded up to a whole number of 256-sample sectors.
pub fn round_up_to_sector(samples: u64) -> (r: u64)
    requires
        samples <= u64::MAX - 255,
    ensures
        r as int == round_up(samples as int),
{
    proof {
        lemma_round_up(samples as int);
    }
    ((samples + 255) / 256) * 256
}

/// The silence written after every input, in samples: one second of
/// `sample_rate` frames of `channels` samples, rounded up to a sector.
pub fn gap_samples(sample_rate: u32, channels: u16) -> (r: u64)
    ensures
        r as int == round_up(sample_rate as int * channels as int),
{
    assert(sample_rate as int * channels as int <= 0xffff_ffffu64 * 0xffffu64) by (nonlinear_arith)
        requires
            sample_rate <= 0xffff_ffffu64,
            channels <= 0xffffu64,
    ;
    let one_second = sample_rate as u64 * channels as u64;
    round_up_to_sector(one_second)
}

/// The error for input `path` (not the first) whose format differs from
/// the first input's: the sample rate is compared first.
pub open spec fn bakup_mismatch(first_rate: u32, first_channels: u16, rate: u32, channels: u16, path: Seq<char>) -> Option<
    Seq<char>,
> {
    if rate != first_rate {
        Some("Incompatible sample-rate in input file "@ + path + ".\n"@)
    } else if channels != first_channels {
        Some("Incompatible channel-count in input file "@ + path + ".\n"@)
    } else {
        None
    }
}

/// Checks that input `path`, of sample rate `rate` and `channels`
/// channels, matches the first input.
pub fn check_bakup_input(first_rate: u32, first_channels: u16, rate: u32, channels: u16, path: &str) -> (r: Result<(), CdpError>)
    ensures
        match bakup_mismatch(first_rate, first_channels, rate, channels, path@) {
            None => r is Ok,
            Some(message) => r matches Err(e) && e.category == ExitCategory::DataError && e.message@
                == message,
        },
{
    if rate != first_rate {
        let mut message = String::from_str("Incompatible sample-rate in input file ");
        push_str(&mut message, path);
        push_str(&mut message, ".\n");
        return Err(CdpError { category: ExitCategory::DataError, message });
    }
    if channels != first_channels {
        let mut message = String::from_str("Incompatible channel-count in input file ");
        push_str(&mut message, path);
        push_str(&mut message, ".\n");
        return Err(CdpError { category: ExitCategory::DataError, message });
    }
    Ok(())
}

/// One input's part of the output: its samples, then silence up to the
/// next sector boundary and a further `gap` samples of silence.
pub open spec fn padded_block<T>(s: Seq<T>, zero: T, gap: int) -> Seq<T> {
    s + Seq::new((round_up(s.len() as int) - s.len() + gap) as nat, |_i: int| zero)
}

/// The whole output: the blocks of all inputs, in order.
pub open spec fn bakup_stream<T>(files: Seq<Seq<T>>, zero: T, gap: int) -> Seq<T>
    decreases files.len(),
{
    if files.len() == 0 {
        seq![]
    } else {
        bakup_stream(files.drop_last(), zero, gap) + padded_block(files.last(), zero, gap)
    }
}

/// The sum of each input's rounded-up length plus the gap.
pub open spec fn bakup_total(lens: Seq<int>, gap: int) -> int
    decreases lens.len(),
{
    if lens.len() == 0 {
        0
    } else {
        bakup_total(lens.drop_last(), gap) + round_up(lens.last()) + gap
    }
}

/// The inputs' sample lists taken by their views.
pub open spec fn file_views<T>(files: Seq<Vec<T>>) -> Seq<Seq<T>> {
    files.map_values(|v: Vec<T>| v@)
}

/// The lengths of a list of sample lists.
pub open spec fn lengths<T>(files: Seq<Seq<T>>) -> Seq<int> {
    files.map_values(|s: Seq<T>| s.len() as int)
}

/// The output holds, for each input, its length rounded up to a sector
/// plus the gap, whatever the buffer sizes were.
pub proof fn lemma_bakup_length<T>(files: Seq<Seq<T>>, zero: T, gap: int)
    requires
        gap >= 0,
    ensures
        bakup_stream(files, zero, gap).len() == bakup_total(lengths(files), gap),
    decreases files.len(),
{
    if files.len() > 0 {
        lemma_bakup_length(files.drop_last(), zero, gap);
        lemma_round_up(files.last().len() as int);
        assert(lengths(files).drop_last() =~= lengths(files.drop_last()));
    }
}

/// The concatenated output of inputs `files` with `gap` samples of silence
/// after each, `zero` being the silent sample.
pub fn bakup_samples<T: Copy>(files: &Vec<Vec<T>>, zero: T, gap: u64) -> (r: Vec<T>)
    requires
        bakup_total(lengths(file_views(files@)), gap as int) <= usize::MAX,
    ensures
        r@ == bakup_stream(file_views(files@), zero, gap as int),
{
    let ghost views = file_views(files@);
    let mut out: Vec<T> = Vec::new();
    let mut f: usize = 0;
    while f < files.len()
        invariant
            f <= files@.len(),
            views == file_views(files@),
            bakup_total(lengths(views), gap as int) <= usize::MAX,
            out@ == bakup_stream(views.take(f as int), zero, gap as int),
        decreases files@.len() - f,
    {
        proof {
            assert(views.take(f + 1).drop_last() =~= views.take(f as int));
            lemma_bakup_length(views.take(f + 1), zero, gap as int);
            lemma_total_prefix(lengths(views), gap as int, f + 1);
            assert(lengths(views).take(f + 1) =~= lengths(views.take(f + 1)));
            lemma_round_up(files@[f as int]@.len() as int);
        }
        let samples = &files[f];
        let ghost start = out@;
        let mut k: usize = 0;
        while k < samples.len()
            invariant
                k <= samples@.len(),
                out@ == start + samples@.take(k as int),
                start.len() + samples@.len() <= usize::MAX,
            decreases samples@.len() - k,
        {
            out.push(samples[k]);
            assert(samples@.take(k + 1) =~= samples@.take(k as int).push(samples@[k as int]));
            k = k + 1;
        }
        let len = samples.len() as u64;
        let fill = round_up_to_sector(len) - len + gap;
        let ghost middle = out@;
        let mut z: u64 = 0;
        while z < fill
            invariant
                z <= fill,
                out@ == middle + Seq::new(z as nat, |_i: int| zero),
                middle.len() + fill <= usize::MAX,
            decreases fill - z,
        {
            out.push(zero);
            assert(Seq::new((z + 1) as nat, |_i: int| zero) =~= Seq::new(z as nat, |_i: int| zero).push(zero));
            z = z + 1;
        }
        proof {
            assert(samples@.take(samples@.len() as int) =~= samples@);
            assert(views.take(f + 1).last() == samples@);
            assert(out@ =~= start + padded_block(samples@, zero, gap as int));
        }
        f = f + 1;
    }
    assert(views.take(files@.len() as int) =~= views);
    out
}

/// The total of a prefix is at most the total of the whole list.
proof fn lemma_total_prefix(lens: Seq<int>, gap: int, n: int)
    requires
        0 <= n <= lens.len(),
        gap >= 0,
        forall|i: int| 0 <= i < lens.len() ==> lens[i] >= 0,
    ensures
        bakup_total(lens.take(n), gap) <= bakup_total(lens, gap),
    decreases lens.len() - n,
{
    if n < lens.len() {
        lemma_total_prefix(lens.drop_last(), gap, n);
        assert(lens.drop_last().take(n) =~= lens.take(n));
        lemma_round_up(lens.last());
    } else {
        assert(lens.take(n) =~= lens);
    }
}

} // verus!
