//! `sndinfo`: reports on sound files, and the ways its commands take and
//! check their input files.

pub mod ctime;
pub mod findhole;
pub mod lens;
pub mod prntsnd;
pub mod report;
pub mod units;
pub mod usage;

use crate::error::{CdpError, ExitCategory};
use crate::sound::FileKindTag;
use crate::params::error::{error_category, error_message, ParamsError, ParamsErrorView};
use crate::text::push_str;
use vstd::prelude::*;
use vstd::string::*;

verus! {

/// The message for a first input that is not a wave file.
pub const WRONG_FILETYPE: &'static str = "Application doesn't work with this type of infile.\n";

/// The message for a command given too few input files.
pub const INSUFFICIENT_INFILES: &'static str = "Insufficient input files for this process\n";

/// Checks the kind of a command's first input: only wave files are taken.
pub fn check_sound_kind(kind: FileKindTag) -> (r: Result<(), CdpError>)
    ensures
        kind == FileKindTag::Wave ==> r is Ok,
        kind != FileKindTag::Wave ==> (r matches Err(e) && e.category == ExitCategory::UsageOnly
            && e.message@ == WRONG_FILETYPE@),
{
    if kind == FileKindTag::Wave {
        Ok(())
    } else {
        Err(CdpError::new(ExitCategory::UsageOnly, WRONG_FILETYPE))
    }
}

/// The error for a first input that cannot be opened.
pub fn cannot_open_error(path: &str) -> (e: CdpError)
    ensures
        e.category == ExitCategory::DataError,
        e.message@ == "Can't open file "@ + path@ + " to read data."@,
{
    let mut message = String::from_str("Can't open file ");
    push_str(&mut message, path);
    push_str(&mut message, " to read data.");
    CdpError { category: ExitCategory::DataError, message }
}

/// The error for a later input that cannot be opened.
pub fn other_cannot_open_error(path: &str) -> (e: CdpError)
    ensures
        e.category == ExitCategory::DataError,
        e.message@ == "cannot open input file "@ + path@ + " to read data."@,
{
    let mut message = String::from_str("cannot open input file ");
    push_str(&mut message, path);
    push_str(&mut message, " to read data.");
    CdpError { category: ExitCategory::DataError, message }
}

/// Checks the kind of a later input `path`: only wave files are taken.
pub fn check_other_sound_kind(kind: FileKindTag, path: &str) -> (r: Result<(), CdpError>)
    ensures
        kind == FileKindTag::Wave ==> r is Ok,
        kind != FileKindTag::Wave ==> (r matches Err(e) && e.category == ExitCategory::DataError
            && e.message@ == path@ + " is not a sound file."@),
{
    if kind == FileKindTag::Wave {
        Ok(())
    } else {
        let mut message = String::from_str(path);
        push_str(&mut message, " is not a sound file.");
        Err(CdpError { category: ExitCategory::DataError, message })
    }
}

/// Whether `c` is an ASCII letter.
pub open spec fn is_ascii_letter(c: char) -> bool {
    ('a' <= c && c <= 'z') || ('A' <= c && c <= 'Z')
}

/// Whether a word has the shape of a flag: `-` followed by an ASCII
/// letter. A bare `-` and a negative number such as `-5` do not.
pub open spec fn flag_shaped(t: Seq<char>) -> bool {
    t.len() >= 2 && t[0] == '-' && is_ascii_letter(t[1])
}

/// Whether `token` has the shape of a flag.
pub fn looks_like_flag(token: &str) -> (r: bool)
    ensures
        r == flag_shaped(token@),
{
    if token.unicode_len() < 2 {
        return false;
    }
    let c = token.get_char(1);
    token.get_char(0) == '-' && (('a' <= c && c <= 'z') || ('A' <= c && c <= 'Z'))
}

/// The number of leading words that are not flag-shaped.
pub open spec fn leading_infiles(args: Seq<Seq<char>>) -> int
    decreases args.len(),
{
    if args.len() == 0 || flag_shaped(args[0]) {
        0
    } else {
        1 + leading_infiles(args.drop_first())
    }
}

/// The leading input files are among the words.
pub proof fn lemma_leading_infiles_bound(args: Seq<Seq<char>>)
    ensures
        0 <= leading_infiles(args) <= args.len(),
    decreases args.len(),
{
    if args.len() > 0 && !flag_shaped(args[0]) {
        lemma_leading_infiles_bound(args.drop_first());
    }
}

/// The input files end at the first flag-shaped word: when words are left
/// after them, the first of those has the shape of a flag.
pub proof fn lemma_leading_infiles_stop(args: Seq<Seq<char>>)
    ensures
        leading_infiles(args) < args.len() ==> flag_shaped(args[leading_infiles(args)]),
    decreases args.len(),
{
    if args.len() > 0 && !flag_shaped(args[0]) {
        lemma_leading_infiles_stop(args.drop_first());
        lemma_leading_infiles_bound(args.drop_first());
        if leading_infiles(args.drop_first()) < args.drop_first().len() {
            assert(args.drop_first()[leading_infiles(args.drop_first())] == args[leading_infiles(args)]);
        }
    }
}

/// The words of a command that takes any number of input files, split
/// into the input files (every word before the first flag-shaped one) and
/// the rest.
pub fn split_infile_tokens<'a>(args: &'a [&'a str]) -> (r: (&'a [&'a str], &'a [&'a str]))
    ensures
        r.0@ == args@.take(leading_infiles(args@.map_values(|t: &str| t@))),
        r.1@ == args@.skip(leading_infiles(args@.map_values(|t: &str| t@))),
        r.0@ + r.1@ == args@,
        r.0@.len() == leading_infiles(args@.map_values(|t: &str| t@)),
{
    let ghost words = args@.map_values(|t: &str| t@);
    let mut n: usize = 0;
    assert(words.skip(0) =~= words);
    while n < args.len() && !looks_like_flag(args[n])
        invariant
            n <= args@.len(),
            words == args@.map_values(|t: &str| t@),
            leading_infiles(words) == n + leading_infiles(words.skip(n as int)),
        decreases args@.len() - n,
    {
        assert(words.skip(n as int).drop_first() =~= words.skip(n + 1));
        n = n + 1;
    }
    proof {
        lemma_leading_infiles_bound(words.skip(n as int));
    }
    let r = args.split_at(n);
    assert(r.0@ + r.1@ =~= args@);
    r
}

/// The checks of a command that lists several input files (`lens`,
/// `sumlen`), before any file is opened: a lone word is too few
/// parameters; fewer than two input files are too few files; otherwise the
/// input files and the words after them.
pub fn infile_list<'a>(args: &'a [&'a str]) -> (r: Result<(&'a [&'a str], &'a [&'a str]), CdpError>)
    ensures
        args@.len() == 1 ==> (r matches Err(e) && e.category == ExitCategory::UsageOnly && e.message@
            == error_message(ParamsErrorView::InsufficientParameters)),
        args@.len() != 1 && leading_infiles(args@.map_values(|t: &str| t@)) < 2 ==> (r matches Err(e)
            && e.category == ExitCategory::UsageOnly && e.message@ == INSUFFICIENT_INFILES@),
        args@.len() != 1 && leading_infiles(args@.map_values(|t: &str| t@)) >= 2 ==> (r matches Ok(
            p,
        ) && p.0@ == args@.take(leading_infiles(args@.map_values(|t: &str| t@))) && p.1@
            == args@.skip(leading_infiles(args@.map_values(|t: &str| t@)))),
        r matches Ok(p) ==> (p.1@.len() > 0 ==> flag_shaped(p.1@[0]@)),
{
    proof {
        lemma_leading_infiles_bound(args@.map_values(|t: &str| t@));
        lemma_leading_infiles_stop(args@.map_values(|t: &str| t@));
    }
    if args.len() == 1 {
        return Err(ParamsError::InsufficientParameters.to_cdp_error());
    }
    let (paths, rest) = split_infile_tokens(args);
    if paths.len() < 2 {
        return Err(CdpError::new(ExitCategory::UsageOnly, INSUFFICIENT_INFILES));
    }
    Ok((paths, rest))
}

/// The check of the word count of `timediff`: exactly two input files.
pub fn timediff_arg_count(n: usize) -> (r: Result<(), CdpError>)
    ensures
        n == 2 ==> r is Ok,
        n == 1 ==> (r matches Err(e) && e.category == ExitCategory::UsageOnly && e.message@
            == error_message(ParamsErrorView::InsufficientCmdlineParameters)),
        n != 1 && n != 2 ==> (r matches Err(e) && e.category == ExitCategory::UsageOnly && e.message@
            == error_message(ParamsErrorView::TooManyParameters)),
{
    if n == 1 {
        Err(ParamsError::InsufficientCmdlineParameters.to_cdp_error())
    } else if n == 2 {
        Ok(())
    } else {
        Err(ParamsError::TooManyParameters.to_cdp_error())
    }
}

/// The mismatch, if any, of a later input `path` of a summed listing with
/// the first input: a different sample rate, else a different channel
/// count.
pub open spec fn sumlen_mismatch(first_rate: u32, first_channels: u16, rate: u32, channels: u16, path: Seq<char>) -> Option<Seq<char>> {
    if rate != first_rate {
        Some("Incompatible sample-rate in input file "@ + path + "."@)
    } else if channels != first_channels {
        Some("Incompatible channel-count in input file "@ + path + "."@)
    } else {
        None
    }
}

/// Checks that a later input `path` of `sumlen`, of sample rate `rate` and
/// `channels` channels, matches the first input.
pub fn check_sumlen_input(first_rate: u32, first_channels: u16, rate: u32, channels: u16, path: &str) -> (r: Result<(), CdpError>)
    ensures
        match sumlen_mismatch(first_rate, first_channels, rate, channels, path@) {
            None => r is Ok,
            Some(message) => r matches Err(e) && e.category == ExitCategory::DataError && e.message@
                == message,
        },
{
    if rate != first_rate {
        let mut message = String::from_str("Incompatible sample-rate in input file ");
        push_str(&mut message, path);
        push_str(&mut message, ".");
        return Err(CdpError { category: ExitCategory::DataError, message });
    }
    if channels != first_channels {
        let mut message = String::from_str("Incompatible channel-count in input file ");
        push_str(&mut message, path);
        push_str(&mut message, ".");
        return Err(CdpError { category: ExitCategory::DataError, message });
    }
    Ok(())
}

/// The error of the words left after the input files of `lens`: the first
/// of them has the shape of a flag, and is reported as an unknown flag
/// (`-x`: "Unknown flag -x on command line.").
pub fn trailing_flag_error(rest: &[&str]) -> (r: Option<CdpError>)
    requires
        rest@.len() > 0 ==> flag_shaped(rest@[0]@),
    ensures
        rest@.len() == 0 ==> r is None,
        rest@.len() > 0 ==> (r matches Some(e) && e.category == ExitCategory::UsageOnly && e.message@
            == error_message(ParamsErrorView::UnknownFlag(rest@[0]@[1]))),
{
    if rest.len() == 0 {
        None
    } else {
        Some(ParamsError::UnknownFlag(rest[0].get_char(1)).to_cdp_error())
    }
}

} // verus!
