//! `housekeep`: the file-management program (copy, channel extraction and
//! conversion, re-specification, bundling, sorting, backup and removal).

pub mod bakup;
pub mod bundle;
pub mod chans;
pub mod copy;
pub mod extract;
pub mod respec;
pub mod remove;
pub mod sort;

use crate::error::{CdpError, ExitCategory};
use crate::sound::{FileKindTag, SampleKind, SoundFormat};
use crate::text::push_str;
use vstd::prelude::*;
use vstd::string::*;

verus! {

/// The usage text of a bare `housekeep`.
pub const USAGE: &'static str = "CDP Release 7.1 2016
USAGE: housekeep NAME (mode) infile(s) (outfile) (parameters)

where NAME can be any one of

extract  copy   remove   chans   respec   bundle   sort   disk
bakup    gate    batchexpand    endclicks    deglitch

Type 'housekeep chans'  for more info on housekeep chans option... ETC.
";

/// The error a sample-copying command named `program` stops at for an
/// input of format `f`: only wave files with 16-bit or float samples are
/// handled.
pub open spec fn wave_scope_error(program: Seq<char>, f: SoundFormat) -> Option<(ExitCategory, Seq<char>)> {
    if f.kind != FileKindTag::Wave {
        Some((ExitCategory::ProgramError, program + ": only sound files are implemented yet"@))
    } else if f.sample == SampleKind::Other {
        Some((ExitCategory::ProgramError, program + ": this sample format is not implemented yet"@))
    } else {
        None
    }
}

/// Checks that the command named `program` handles an input of format
/// `format`.
pub fn check_wave_scope(program: &str, format: SoundFormat) -> (r: Result<(), CdpError>)
    ensures
        match wave_scope_error(program@, format) {
            None => r is Ok,
            Some((category, message)) => r matches Err(e) && e.category == category && e.message@
                == message,
        },
{
    if format.kind != FileKindTag::Wave {
        let mut message = String::from_str(program);
        push_str(&mut message, ": only sound files are implemented yet");
        return Err(CdpError { category: ExitCategory::ProgramError, message });
    }
    if format.sample == SampleKind::Other {
        let mut message = String::from_str(program);
        push_str(&mut message, ": this sample format is not implemented yet");
        return Err(CdpError { category: ExitCategory::ProgramError, message });
    }
    Ok(())
}

/// The error of a sample-writing command whose output file already exists.
pub fn output_exists_error(path: &str) -> (e: CdpError)
    ensures
        e.category == ExitCategory::DataError,
        e.message@ == "Cannot open output file "@ + path@ + "\n"@,
{
    let mut message = String::from_str("Cannot open output file ");
    push_str(&mut message, path);
    push_str(&mut message, "\n");
    CdpError { category: ExitCategory::DataError, message }
}

} // verus!
