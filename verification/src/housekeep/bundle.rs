//! `housekeep bundle mode infile [infile2 ...] outtextfile`: lists the names
//! of the input files that the mode selects in a text file, one per line.
//!
//! Modes 2 to 5 consider only the inputs that open as sound-filing-system
//! files; modes 3 to 5 compare each of them with the first one.

use crate::error::{CdpError, ExitCategory};
use crate::sound::FileKindTag;
use crate::text::{push_str, same_text};
use vstd::prelude::*;
use vstd::string::*;

verus! {

/// The greeting printed ahead of a bare command.
pub const GREETING: &'static str = "CDP Release 7.1 2016\n";

/// The usage text of `housekeep bundle`.
pub const USAGE: &'static str = "CDP Release 7.1 2016
LIST FILENAMES IN TEXTFILE FOR SORTING, OR MIXDUMMY.

USAGE: housekeep bundle mode infile [infile2....] outtextfile

MODES ARE
1) BUNDLE ALL ENTERED FILES
2) BUNDLE ALL NON-TEXT FILES ENTERED
3) BUNDLE ALL NON-TEXT FILES OF SAME TYPE AS FIRST NON-TEXT FILE
           e.g. all sndfiles, or all analysis files....
4) AS (3), BUT ONLY FILES WITH SAME PROPERTIES
5) AS (4), BUT IF FILE1 IS SNDFILE, FILES WITH SAME CHAN COUNT ONLY
";

/// What `housekeep bundle` selects.
#[derive(Debug, Clone, Copy, PartialEq, Eq, Structural)]
pub enum Mode {
    All,
    NonText,
    Type,
    SameProperties,
    SameChanCount,
}

/// The mode numbered `mode` on the command line.
pub open spec fn mode_of(mode: u32) -> Option<Mode> {
    if mode == 1 {
        Some(Mode::All)
    } else if mode == 2 {
        Some(Mode::NonText)
    } else if mode == 3 {
        Some(Mode::Type)
    } else if mode == 4 {
        Some(Mode::SameProperties)
    } else if mode == 5 {
        Some(Mode::SameChanCount)
    } else {
        None
    }
}

impl Mode {
    /// The mode numbered `mode` (1 to 5), or `None`.
    pub fn from_number(mode: u32) -> (r: Option<Mode>)
        ensures
            r == mode_of(mode),
    {
        match mode {
            1 => Some(Mode::All),
            2 => Some(Mode::NonText),
            3 => Some(Mode::Type),
            4 => Some(Mode::SameProperties),
            5 => Some(Mode::SameChanCount),
            _ => None,
        }
    }
}

/// A single-precision header value taken by what decides its equality: a
/// NaN equals nothing, and `0.0` equals `-0.0` (both are `Value` of the
/// bits of `0.0`).
#[derive(Debug, Clone, Copy, PartialEq, Eq, Structural)]
pub enum FloatKey {
    Nan,
    Value(u32),
}

/// What bundle compares of a file that opened as a sound-filing-system
/// file: its kind, sample rate and channel count, and the analysis
/// properties it has (`None` where the header lacks one).
#[derive(Debug, Clone, Copy, PartialEq, Eq, Structural)]
pub struct BundleProps {
    pub kind: FileKindTag,
    pub sample_rate: u32,
    pub channels: u16,
    pub orig_sample_rate: Option<u32>,
    pub arate: Option<u32>,
    pub window_size: Option<FloatKey>,
}

/// Whether two optional window sizes compare equal.
pub open spec fn same_window(a: Option<FloatKey>, b: Option<FloatKey>) -> bool {
    match (a, b) {
        (None, None) => true,
        (Some(FloatKey::Value(x)), Some(FloatKey::Value(y))) => x == y,
        _ => false,
    }
}

/// Whether `f` has the properties of `first`: the same sample rate and
/// channel count, and, unless `f` is a wave file, the same original sample
/// rate, analysis rate and window size.
pub open spec fn properties_match(f: BundleProps, first: BundleProps) -> bool {
    &&& f.sample_rate == first.sample_rate
    &&& f.channels == first.channels
    &&& (f.kind == FileKindTag::Wave || (f.orig_sample_rate == first.orig_sample_rate
        && f.arate == first.arate && same_window(f.window_size, first.window_size)))
}

/// Whether modes 3 to 5 keep the sound file `f`, given the first sound
/// file `first`.
pub open spec fn matches_first(mode: Mode, first: BundleProps, f: BundleProps) -> bool {
    match mode {
        Mode::Type => f.kind == first.kind,
        Mode::SameProperties => f.kind == first.kind && properties_match(f, first),
        Mode::SameChanCount => f.kind == first.kind && properties_match(f, first) && f.channels
            == first.channels,
        _ => false,
    }
}

/// The index of the first sound file among the first `n` inputs.
pub open spec fn first_sound(files: Seq<Option<BundleProps>>, n: int) -> Option<int>
    decreases n,
{
    if n <= 0 {
        None
    } else {
        match first_sound(files, n - 1) {
            Some(k) => Some(k),
            None => if files[n - 1] is Some {
                Some(n - 1)
            } else {
                None
            },
        }
    }
}

/// Whether input `i` is listed: every input in mode 1; every sound file in
/// mode 2; in modes 3 to 5 the first sound file and every later one that
/// matches it.
pub open spec fn selected(mode: Mode, files: Seq<Option<BundleProps>>, i: int) -> bool {
    match mode {
        Mode::All => true,
        Mode::NonText => files[i] is Some,
        _ => files[i] is Some && match first_sound(files, i) {
            None => true,
            Some(k) => matches_first(mode, files[k].unwrap(), files[i].unwrap()),
        },
    }
}

/// Whether two optional window sizes compare equal.
fn same_window_exec(a: Option<FloatKey>, b: Option<FloatKey>) -> (r: bool)
    ensures
        r == same_window(a, b),
{
    match (a, b) {
        (None, None) => true,
        (Some(FloatKey::Value(x)), Some(FloatKey::Value(y))) => x == y,
        _ => false,
    }
}

/// Whether `f` has the properties of `first`.
fn properties_match_exec(f: &BundleProps, first: &BundleProps) -> (r: bool)
    ensures
        r == properties_match(*f, *first),
{
    if f.sample_rate != first.sample_rate || f.channels != first.channels {
        return false;
    }
    if f.kind == FileKindTag::Wave {
        return true;
    }
    f.orig_sample_rate == first.orig_sample_rate && f.arate == first.arate && same_window_exec(
        f.window_size,
        first.window_size,
    )
}

/// Whether modes 3 to 5 keep `f`, given the first sound file `first`.
fn matches_first_exec(mode: Mode, first: &BundleProps, f: &BundleProps) -> (r: bool)
    ensures
        r == matches_first(mode, *first, *f),
{
    match mode {
        Mode::Type => f.kind == first.kind,
        Mode::SameProperties => f.kind == first.kind && properties_match_exec(f, first),
        Mode::SameChanCount => f.kind == first.kind && properties_match_exec(f, first)
            && f.channels == first.channels,
        _ => false,
    }
}

/// Which inputs `housekeep bundle` lists, in input order: `files[i]` holds
/// the properties of input `i`, or `None` where it did not open as a
/// sound-filing-system file.
pub fn bundle_selection(mode: Mode, files: &Vec<Option<BundleProps>>) -> (r: Vec<bool>)
    ensures
        r@.len() == files@.len(),
        forall|i: int| 0 <= i < files@.len() ==> r@[i] == selected(mode, files@, i),
{
    let mut r: Vec<bool> = Vec::new();
    let mut first: Option<usize> = None;
    let mut i: usize = 0;
    while i < files.len()
        invariant
            i <= files@.len(),
            r@.len() == i,
            forall|j: int| 0 <= j < i ==> r@[j] == selected(mode, files@, j),
            match first {
                None => first_sound(files@, i as int) is None,
                Some(k) => first_sound(files@, i as int) == Some(k as int) && k < i && files@[k as int] is Some,
            },
        decreases files.len() - i,
    {
        let keep = match mode {
            Mode::All => true,
            Mode::NonText => files[i].is_some(),
            _ => match &files[i] {
                None => false,
                Some(f) => match first {
                    None => true,
                    Some(k) => {
                        let head = files[k].unwrap();
                        matches_first_exec(mode, &head, f)
                    },
                },
            },
        };
        r.push(keep);
        if first.is_none() && files[i].is_some() {
            first = Some(i);
        }
        i = i + 1;
    }
    r
}

/// Whether `outfile` is among `infiles`.
fn names_contain(infiles: &Vec<String>, outfile: &str) -> (r: bool)
    ensures
        r == exists|i: int| 0 <= i < infiles@.len() && infiles@[i]@ == outfile@,
{
    let mut i: usize = 0;
    while i < infiles.len()
        invariant
            i <= infiles@.len(),
            forall|j: int| 0 <= j < i ==> infiles@[j]@ != outfile@,
        decreases infiles.len() - i,
    {
        if same_text(infiles[i].as_str(), outfile) {
            return true;
        }
        i = i + 1;
    }
    false
}

/// An optional word taken by its characters.
pub open spec fn opt_text(t: Option<&str>) -> Option<Seq<char>> {
    match t {
        Some(t) => Some(t@),
        None => None,
    }
}

/// The error `housekeep bundle` stops at before it opens its output file,
/// if any.
pub open spec fn bundle_names_error(infiles: Seq<Seq<char>>, outfile: Option<Seq<char>>) -> Option<
    (ExitCategory, Seq<char>),
> {
    if infiles.len() == 0 {
        Some((ExitCategory::UsageOnly, "Insufficient input files for this process\n"@))
    } else {
        match outfile {
            None => Some((ExitCategory::UsageOnly, "bundle requires an output text file\n"@)),
            Some(out) => if infiles.contains(out) {
                Some(
                    (
                        ExitCategory::DataError,
                        "Name of out-listfile ["@ + out + "] cannot be included in the listing!!\n"@,
                    ),
                )
            } else {
                None
            },
        }
    }
}

/// Checks the file names of a bundle command: at least one input, an
/// output file, and an output that is not also an input.
pub fn check_bundle_names(infiles: &Vec<String>, outfile: Option<&str>) -> (r: Result<(), CdpError>)
    ensures
        match bundle_names_error(infiles@.map_values(|s: String| s@), opt_text(outfile)) {
            None => r is Ok,
            Some((category, message)) => r matches Err(e) && e.category == category && e.message@
                == message,
        },
{
    let ghost names = infiles@.map_values(|s: String| s@);
    if infiles.len() == 0 {
        return Err(CdpError::new(ExitCategory::UsageOnly, "Insufficient input files for this process\n"));
    }
    match outfile {
        None => Err(CdpError::new(ExitCategory::UsageOnly, "bundle requires an output text file\n")),
        Some(out) => {
            if names_contain(infiles, out) {
                let mut message = String::from_str("Name of out-listfile [");
                push_str(&mut message, out);
                push_str(&mut message, "] cannot be included in the listing!!\n");
                proof {
                    let i = choose|i: int| 0 <= i < infiles@.len() && infiles@[i]@ == out@;
                    assert(names[i] == out@);
                    assert(names.contains(out@));
                }
                Err(CdpError { category: ExitCategory::DataError, message })
            } else {
                proof {
                    if names.contains(out@) {
                        let i = choose|i: int| 0 <= i < names.len() && names[i] == out@;
                        assert(infiles@[i]@ == out@);
                    }
                }
                Ok(())
            }
        },
    }
}

} // verus!
