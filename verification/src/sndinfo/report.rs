//! The integer parts of the reports of `sndinfo props`, `len` and
//! `maxsamp`: which file kinds they handle, and the lines that hold only
//! counts. Durations, rates and levels are measured by the caller and
//! handed in as text.

use crate::error::{CdpError, ExitCategory};
use crate::sndinfo::ctime::ctime_text;
use crate::sound::FileKindTag;
use crate::text::{decimal, push_decimal, push_str};
use vstd::prelude::*;
use vstd::string::*;

verus! {

/// Whether the information commands leave out files of kind `kind`:
/// pitch, transposition and formant files.
pub open spec fn unsupported_kind(kind: FileKindTag) -> bool {
    kind == FileKindTag::Pitch || kind == FileKindTag::Transposition || kind == FileKindTag::Formant
}

/// Checks that the information command `command` handles a file of kind
/// `kind`.
pub fn check_info_kind(command: &str, kind: FileKindTag) -> (r: Result<(), CdpError>)
    ensures
        !unsupported_kind(kind) ==> r is Ok,
        unsupported_kind(kind) ==> (r matches Err(e) && e.category == ExitCategory::ProgramError
            && e.message@ == command@ + ": pitch/transposition/formant files are not implemented yet"@),
{
    if kind == FileKindTag::Pitch || kind == FileKindTag::Transposition || kind == FileKindTag::Formant {
        let mut message = String::from_str(command);
        push_str(&mut message, ": pitch/transposition/formant files are not implemented yet");
        Err(CdpError { category: ExitCategory::ProgramError, message })
    } else {
        Ok(())
    }
}

/// The first lines of `sndinfo props` for a file of kind `kind`: what the
/// file is, its sample count, its file type, its sample rate and its
/// channel count.
pub open spec fn props_header_text(kind: FileKindTag, samples: nat, rate: nat, channels: nat) -> Seq<char> {
    let (title, file_type) = if kind == FileKindTag::Wave {
        ("A SOUND file.\n"@, "file type: ........... SOUND\n"@)
    } else if kind == FileKindTag::Analysis {
        ("An ANALYSIS file.\n"@, "file type: .......... ANALYSIS DATA\n"@)
    } else {
        ("A binary ENVELOPE file.\n"@, "file type: .......... ENVELOPE DATA (binary)\n"@)
    };
    title + "samples: ............ "@ + decimal(samples) + "\n"@ + file_type + "sample rate: ........ "@
        + decimal(rate) + "\n"@ + "channels: ........... "@ + decimal(channels) + "\n"@
}

/// The first lines of `sndinfo props` (a 16-bit wave file of 44174
/// samples at 44100 Hz, mono: `A SOUND file.`, `samples: ............
/// 44174`, `file type: ........... SOUND`, `sample rate: ........ 44100`,
/// `channels: ........... 1`), or the error for a kind it leaves out.
pub fn props_header(kind: FileKindTag, samples: u64, sample_rate: u32, channels: u16) -> (r: Result<String, CdpError>)
    ensures
        !unsupported_kind(kind) ==> (r matches Ok(s) && s@ == props_header_text(
            kind,
            samples as nat,
            sample_rate as nat,
            channels as nat,
        )),
        unsupported_kind(kind) ==> (r matches Err(e) && e.category == ExitCategory::ProgramError
            && e.message@ == "sndinfo props: pitch/transposition/formant files are not implemented yet"@),
{
    proof {
        reveal_strlit("sndinfo props");
        reveal_strlit(": pitch/transposition/formant files are not implemented yet");
        reveal_strlit("sndinfo props: pitch/transposition/formant files are not implemented yet");
        assert("sndinfo props"@ + ": pitch/transposition/formant files are not implemented yet"@
            =~= "sndinfo props: pitch/transposition/formant files are not implemented yet"@);
    }
    check_info_kind("sndinfo props", kind)?;
    let (title, file_type) = if kind == FileKindTag::Wave {
        ("A SOUND file.\n", "file type: ........... SOUND\n")
    } else if kind == FileKindTag::Analysis {
        ("An ANALYSIS file.\n", "file type: .......... ANALYSIS DATA\n")
    } else {
        ("A binary ENVELOPE file.\n", "file type: .......... ENVELOPE DATA (binary)\n")
    };
    let mut s = String::from_str(title);
    push_str(&mut s, "samples: ............ ");
    push_decimal(&mut s, samples);
    push_str(&mut s, "\n");
    push_str(&mut s, file_type);
    push_str(&mut s, "sample rate: ........ ");
    push_decimal(&mut s, sample_rate as u64);
    push_str(&mut s, "\n");
    push_str(&mut s, "channels: ........... ");
    push_decimal(&mut s, channels as u64);
    push_str(&mut s, "\n");
    Ok(s)
}

/// The report of `sndinfo len` for a file of kind `kind` with `samples`
/// samples in `channels` channels, `duration` being the duration text:
/// what the file is, the duration, then the sample count (a wave file), or
/// the window count (samples per channel; never set for an envelope file,
/// so always 0 there) and the float count.
pub open spec fn len_report(kind: FileKindTag, samples: nat, channels: nat, duration: Seq<char>) -> Seq<char> {
    if kind == FileKindTag::Wave {
        "A soundfile\nDURATION: "@ + duration + "samples "@ + decimal(samples) + "\n"@
    } else if kind == FileKindTag::Analysis {
        "An analysis data file\nDURATION: "@ + duration + "windows "@ + decimal(samples / channels)
            + " : floats "@ + decimal(samples) + "\n"@
    } else {
        "A binary envelope file\nDURATION: "@ + duration + "windows 0 : floats "@ + decimal(samples)
            + "\n"@
    }
}

/// The report of `sndinfo len` (a wave file of 44174 samples lasting
/// `1.001678 secs `: `A soundfile`, `DURATION: 1.001678 secs samples
/// 44174`), or the error for a kind it leaves out.
pub fn len_text(kind: FileKindTag, samples: u64, channels: u16, duration: &str) -> (r: Result<String, CdpError>)
    requires
        kind == FileKindTag::Analysis ==> channels > 0,
    ensures
        !unsupported_kind(kind) ==> (r matches Ok(s) && s@ == len_report(
            kind,
            samples as nat,
            channels as nat,
            duration@,
        )),
        unsupported_kind(kind) ==> (r matches Err(e) && e.category == ExitCategory::ProgramError
            && e.message@ == "sndinfo len: pitch/transposition/formant files are not implemented yet"@),
{
    proof {
        reveal_strlit("sndinfo len");
        reveal_strlit(": pitch/transposition/formant files are not implemented yet");
        reveal_strlit("sndinfo len: pitch/transposition/formant files are not implemented yet");
        assert("sndinfo len"@ + ": pitch/transposition/formant files are not implemented yet"@
            =~= "sndinfo len: pitch/transposition/formant files are not implemented yet"@);
    }
    check_info_kind("sndinfo len", kind)?;
    let mut s = String::new();
    if kind == FileKindTag::Wave {
        push_str(&mut s, "A soundfile\nDURATION: ");
        push_str(&mut s, duration);
        push_str(&mut s, "samples ");
        push_decimal(&mut s, samples);
    } else if kind == FileKindTag::Analysis {
        push_str(&mut s, "An analysis data file\nDURATION: ");
        push_str(&mut s, duration);
        push_str(&mut s, "windows ");
        push_decimal(&mut s, samples / channels as u64);
        push_str(&mut s, " : floats ");
        push_decimal(&mut s, samples);
    } else {
        push_str(&mut s, "A binary envelope file\nDURATION: ");
        push_str(&mut s, duration);
        push_str(&mut s, "windows 0 : floats ");
        push_decimal(&mut s, samples);
    }
    push_str(&mut s, "\n");
    Ok(s)
}

/// The sample-type and `PEAK` heading lines of `sndinfo props` for a wave
/// file whose sample type is named `sample_name`: with no `PEAK` chunk the
/// notice `No PEAK chunk in this file`, with no newline after it; else the
/// `ctime` line of the chunk's timestamp and a blank line.
pub open spec fn peak_head_text(sample_name: Seq<char>, peak_time: Option<i32>) -> Seq<char> {
    "sample type:  "@ + sample_name + "\n"@ + match peak_time {
        None => "No PEAK chunk in this file"@,
        Some(ts) => "PEAK data at: "@ + ctime_text(ts as int) + "\n"@,
    }
}

/// The sample-type and `PEAK` heading lines of `sndinfo props`
/// (`16bit` with no chunk: `sample type:  16bit`, then `No PEAK chunk in
/// this file` with no newline); `peak_time` is the chunk's timestamp, or
/// `None` where the file has no chunk. The per-channel lines follow.
pub fn peak_head(sample_name: &str, peak_time: Option<i32>) -> (r: String)
    ensures
        r@ == peak_head_text(sample_name@, peak_time),
{
    let mut s = String::from_str("sample type:  ");
    push_str(&mut s, sample_name);
    push_str(&mut s, "\n");
    match peak_time {
        None => push_str(&mut s, "No PEAK chunk in this file"),
        Some(ts) => {
            push_str(&mut s, "PEAK data at: ");
            let line = crate::sndinfo::ctime::format(ts);
            push_str(&mut s, line.as_str());
            push_str(&mut s, "\n");
        },
    }
    s
}

/// The `Date:` line of `sndinfo props` for a file whose `DATE` property is
/// `timestamp`: `Date: `, its `ctime` line, and a blank line.
pub fn date_line(timestamp: i32) -> (r: String)
    ensures
        r@ == "Date: "@ + ctime_text(timestamp as int) + "\n"@,
{
    let mut s = String::from_str("Date: ");
    let line = crate::sndinfo::ctime::format(timestamp);
    push_str(&mut s, line.as_str());
    push_str(&mut s, "\n");
    s
}

} // verus!
