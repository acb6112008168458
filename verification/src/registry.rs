//! The table of implemented commands: for each program and sub-command its
//! usage text and process name, and for each mode the command spec
//! its arguments are parsed against, or the reason the mode is exempt from
//! the grammar check.

use crate::text::push_str;
use vstd::prelude::*;
use vstd::string::*;

verus! {

/// The command spec a mode's arguments are parsed against, by the name of
/// the function that builds it.
#[derive(Debug, Clone, Copy, PartialEq, Eq, Structural)]
pub enum SpecBuilder {
    SndinfoProps,
    SndinfoLen,
    SndinfoSmptime,
    SndinfoTimesmp,
    SndinfoMaxsamp,
    SndinfoUnits,
    HousekeepCopyOnce,
    HousekeepChansChannel,
    HousekeepChansChannels,
    HousekeepChansZchannel,
    HousekeepChansStom,
    HousekeepChansMtos,
    HousekeepRespecConvert,
    HousekeepRespecReprop,
    SynthWave,
    PvocAnal,
}

/// One mode of a command: its number on the command line (`None` for a
/// command without modes), its mode name, and either the spec its
/// arguments are parsed against or the reason it is exempt.
#[derive(Debug, Clone, Copy)]
pub struct ModeEntry {
    pub cli_mode: Option<u32>,
    pub legacy_mode: &'static str,
    pub spec: Option<SpecBuilder>,
    pub exempt_reason: Option<&'static str>,
}

/// One command: program, sub-command, usage text, process name, the
/// launcher program that runs it (if any), and its modes.
#[derive(Debug, Clone)]
pub struct CommandEntry {
    pub program: &'static str,
    pub subcommand: &'static str,
    pub usage: &'static str,
    pub legacy_process: &'static str,
    pub launcher: Option<&'static str>,
    pub modes: Vec<ModeEntry>,
}

/// Whether a mode either has a spec or records why it has none, never
/// both.
pub open spec fn mode_is_accounted(m: ModeEntry) -> bool {
    m.spec is Some <==> m.exempt_reason is None
}

/// A mode numbered `cli_mode` whose arguments are parsed against `spec`.
pub fn mode(cli_mode: u32, legacy_mode: &'static str, spec: SpecBuilder) -> (m: ModeEntry)
    ensures
        m.cli_mode == Some(cli_mode),
        m.legacy_mode == legacy_mode,
        m.spec == Some(spec),
        m.exempt_reason is None,
        mode_is_accounted(m),
{
    ModeEntry { cli_mode: Some(cli_mode), legacy_mode, spec: Some(spec), exempt_reason: None }
}

/// The single mode of a command without mode numbers.
pub fn unmoded(spec: SpecBuilder) -> (m: ModeEntry)
    ensures
        m.cli_mode is None,
        m.legacy_mode@ == "null"@,
        m.spec == Some(spec),
        m.exempt_reason is None,
        mode_is_accounted(m),
{
    ModeEntry { cli_mode: None, legacy_mode: "null", spec: Some(spec), exempt_reason: None }
}

/// A mode exempt from the grammar check, for the reason `why`.
pub fn exempt(cli_mode: Option<u32>, legacy_mode: &'static str, why: &'static str) -> (m: ModeEntry)
    ensures
        m.cli_mode == cli_mode,
        m.legacy_mode == legacy_mode,
        m.spec is None,
        m.exempt_reason == Some(why),
        mode_is_accounted(m),
{
    ModeEntry { cli_mode, legacy_mode, spec: None, exempt_reason: Some(why) }
}

/// A command run by the launcher named after its program.
pub fn entry(
    program: &'static str,
    subcommand: &'static str,
    usage: &'static str,
    legacy_process: &'static str,
    modes: Vec<ModeEntry>,
) -> (e: CommandEntry)
    ensures
        e.program == program,
        e.subcommand == subcommand,
        e.usage == usage,
        e.legacy_process == legacy_process,
        e.launcher == Some(program),
        e.modes@ == modes@,
{
    CommandEntry { program, subcommand, usage, legacy_process, launcher: Some(program), modes }
}

/// The path of the recorded usage text of a command,
/// `spec/usage/<program>/<subcommand>.txt`.
pub fn usage_spec_path(entry: &CommandEntry) -> (r: String)
    ensures
        r@ == "spec/usage/"@ + entry.program@ + "/"@ + entry.subcommand@ + ".txt"@,
{
    let mut r = String::from_str("spec/usage/");
    push_str(&mut r, entry.program);
    push_str(&mut r, "/");
    push_str(&mut r, entry.subcommand);
    push_str(&mut r, ".txt");
    r
}

/// Whether every mode of every command has a spec or a recorded reason.
pub open spec fn table_is_accounted(table: Seq<CommandEntry>) -> bool {
    forall|c: int, m: int|
        0 <= c < table.len() && 0 <= m < table[c].modes@.len() ==> mode_is_accounted(
            #[trigger] table[c].modes@[m],
        )
}

/// The reason shared by the commands whose arguments are parsed by hand.
const BY_HAND: &'static str = "arguments are parsed by hand and the grammar is unchecked";

/// The reason shared by the `housekeep bundle` modes.
const BUNDLE_BY_HAND: &'static str = "arguments are parsed by hand, grammar unchecked";

/// The reason shared by the renumbered `housekeep sort` modes.
const SORT_RENUMBERED: &'static str = "the implemented mode numbering differs from the command's own";

/// Appends `e` to `table`, keeping every mode accounted for.
fn push_entry(table: &mut Vec<CommandEntry>, e: CommandEntry)
    requires
        table_is_accounted(old(table)@),
        forall|m: int| 0 <= m < e.modes@.len() ==> mode_is_accounted(#[trigger] e.modes@[m]),
    ensures
        table_is_accounted(final(table)@),
        final(table)@ == old(table)@.push(e),
{
    table.push(e);
    assert forall|c: int, m: int|
        0 <= c < table@.len() && 0 <= m < table@[c].modes@.len() implies mode_is_accounted(
        #[trigger] table@[c].modes@[m],
    ) by {
        if c < table@.len() - 1 {
            assert(table@[c] == old(table)@[c]);
        }
    }
}

/// The program, sub-command and process name of each command, in table
/// order.
pub open spec fn command_rows() -> Seq<(Seq<char>, Seq<char>, Seq<char>)> {
    seq![
        ("sndinfo"@, "props"@, "INFO_PROPS"@),
        ("sndinfo"@, "len"@, "INFO_SFLEN"@),
        ("sndinfo"@, "lens"@, "INFO_TIMELIST"@),
        ("sndinfo"@, "sumlen"@, "INFO_TIMESUM"@),
        ("sndinfo"@, "timediff"@, "INFO_TIMEDIFF"@),
        ("sndinfo"@, "smptime"@, "INFO_SAMPTOTIME"@),
        ("sndinfo"@, "timesmp"@, "INFO_TIMETOSAMP"@),
        ("sndinfo"@, "maxsamp"@, "INFO_MAXSAMP"@),
        ("sndinfo"@, "units"@, "INFO_MUSUNITS"@),
        ("sndinfo"@, "prntsnd"@, "INFO_PRNTSND"@),
        ("sndinfo"@, "findhole"@, "INFO_FINDHOLE"@),
        ("housekeep"@, "copy"@, "HOUSE_COPY"@),
        ("housekeep"@, "chans"@, "HOUSE_CHANS"@),
        ("housekeep"@, "respec"@, "HOUSE_SPEC"@),
        ("housekeep"@, "bakup"@, "HOUSE_BAKUP"@),
        ("housekeep"@, "bundle"@, "HOUSE_BUNDLE"@),
        ("housekeep"@, "extract"@, "HOUSE_EXTRACT"@),
        ("housekeep"@, "remove"@, "HOUSE_DEL"@),
        ("housekeep"@, "sort"@, "HOUSE_SORT"@),
        ("synth"@, "wave"@, "SYNTH_WAVE"@),
        ("pvoc"@, "anal"@, "PVOC_ANAL"@),
    ]
}

/// The usage text of each command, in table order.
pub open spec fn usage_rows() -> Seq<Seq<char>> {
    seq![
        crate::sndinfo::usage::PROPS_USAGE@,
        crate::sndinfo::usage::LEN_USAGE@,
        crate::sndinfo::lens::USAGE@,
        crate::sndinfo::usage::SUMLEN_USAGE@,
        crate::sndinfo::usage::TIMEDIFF_USAGE@,
        crate::sndinfo::usage::SMPTIME_USAGE@,
        crate::sndinfo::usage::TIMESMP_USAGE@,
        crate::sndinfo::usage::MAXSAMP_USAGE@,
        crate::sndinfo::usage::UNITS_USAGE@,
        crate::sndinfo::prntsnd::USAGE@,
        crate::sndinfo::findhole::USAGE@,
        crate::housekeep::copy::USAGE@,
        crate::housekeep::chans::USAGE@,
        crate::housekeep::respec::USAGE@,
        crate::housekeep::bakup::USAGE@,
        crate::housekeep::bundle::USAGE@,
        crate::housekeep::extract::USAGE@,
        crate::housekeep::remove::USAGE@,
        crate::housekeep::sort::USAGE@,
        crate::synth::wave::USAGE@,
        crate::pvoc::anal::USAGE@,
    ]
}

/// The mode number and spec of each mode of each command, in table order
/// (`None` as spec for an exempt mode).
pub open spec fn mode_rows() -> Seq<Seq<(Option<u32>, Option<SpecBuilder>)>> {
    seq![
        seq![(None, Some(SpecBuilder::SndinfoProps))],
        seq![(None, Some(SpecBuilder::SndinfoLen))],
        seq![(None, None)],
        seq![(None, None)],
        seq![(None, None)],
        seq![(None, Some(SpecBuilder::SndinfoSmptime))],
        seq![(None, Some(SpecBuilder::SndinfoTimesmp))],
        seq![(None, Some(SpecBuilder::SndinfoMaxsamp))],
        seq![(Some(1u32), Some(SpecBuilder::SndinfoUnits)), (Some(2u32), Some(SpecBuilder::SndinfoUnits))],
        seq![(None, None)],
        seq![(None, None)],
        seq![(Some(1u32), Some(SpecBuilder::HousekeepCopyOnce)), (Some(2u32), None)],
        seq![
            (Some(1u32), Some(SpecBuilder::HousekeepChansChannel)),
            (Some(2u32), Some(SpecBuilder::HousekeepChansChannels)),
            (Some(3u32), Some(SpecBuilder::HousekeepChansZchannel)),
            (Some(4u32), Some(SpecBuilder::HousekeepChansStom)),
            (Some(5u32), Some(SpecBuilder::HousekeepChansMtos)),
        ],
        seq![
            (Some(1u32), None),
            (Some(2u32), Some(SpecBuilder::HousekeepRespecConvert)),
            (Some(3u32), Some(SpecBuilder::HousekeepRespecReprop)),
        ],
        seq![(None, None)],
        seq![(Some(1u32), None), (Some(2u32), None), (Some(3u32), None), (Some(4u32), None), (Some(5u32), None)],
        seq![(Some(4u32), None)],
        seq![(None, None)],
        seq![(Some(1u32), None), (Some(2u32), None), (Some(4u32), None)],
        seq![
            (Some(1u32), Some(SpecBuilder::SynthWave)),
            (Some(2u32), Some(SpecBuilder::SynthWave)),
            (Some(3u32), Some(SpecBuilder::SynthWave)),
            (Some(4u32), Some(SpecBuilder::SynthWave)),
        ],
        seq![(Some(1u32), Some(SpecBuilder::PvocAnal))],
    ]
}

/// The mode numbers and specs of a command's modes.
pub open spec fn mode_keys(modes: Seq<ModeEntry>) -> Seq<(Option<u32>, Option<SpecBuilder>)> {
    modes.map_values(|m: ModeEntry| (m.cli_mode, m.spec))
}

/// The command table, in the order the commands are listed: every mode
/// has a spec or a recorded reason, and each command's names, usage text,
/// launcher (its program's, but none for `pvoc anal`) and modes are those
/// listed above.
pub fn commands() -> (r: Vec<CommandEntry>)
    ensures
        table_is_accounted(r@),
        r@.len() == 21,
        forall|k: int|
            0 <= k < 21 ==> (r@[k].program@, r@[k].subcommand@, r@[k].legacy_process@) == command_rows()[k]
                && r@[k].usage@ == usage_rows()[k] && mode_keys(r@[k].modes@) == mode_rows()[k]
                && r@[k].launcher == (if k == 20 {
                None
            } else {
                Some(r@[k].program)
            }),
{
    let mut t: Vec<CommandEntry> = Vec::new();
    push_entry(&mut t, entry("sndinfo", "props", crate::sndinfo::usage::PROPS_USAGE, "INFO_PROPS", vec![unmoded(SpecBuilder::SndinfoProps)]));
    push_entry(&mut t, entry("sndinfo", "len", crate::sndinfo::usage::LEN_USAGE, "INFO_SFLEN", vec![unmoded(SpecBuilder::SndinfoLen)]));
    push_entry(&mut t, entry("sndinfo", "lens", crate::sndinfo::lens::USAGE, "INFO_TIMELIST", vec![exempt(None, "null", "MANY_SNDFILES: the infile list is consumed by hand before parsing")]));
    push_entry(&mut t, entry("sndinfo", "sumlen", crate::sndinfo::usage::SUMLEN_USAGE, "INFO_TIMESUM", vec![exempt(None, "null", "MANY_SNDFILES: only the -s flag goes through the argument grammar")]));
    push_entry(&mut t, entry("sndinfo", "timediff", crate::sndinfo::usage::TIMEDIFF_USAGE, "INFO_TIMEDIFF", vec![exempt(None, "null", "TWO_SNDFILES: the two infiles are validated in an interleaved order that a generic infile_count check cannot reproduce")]));
    push_entry(&mut t, entry("sndinfo", "smptime", crate::sndinfo::usage::SMPTIME_USAGE, "INFO_SAMPTOTIME", vec![unmoded(SpecBuilder::SndinfoSmptime)]));
    push_entry(&mut t, entry("sndinfo", "timesmp", crate::sndinfo::usage::TIMESMP_USAGE, "INFO_TIMETOSAMP", vec![unmoded(SpecBuilder::SndinfoTimesmp)]));
    push_entry(&mut t, entry("sndinfo", "maxsamp", crate::sndinfo::usage::MAXSAMP_USAGE, "INFO_MAXSAMP", vec![unmoded(SpecBuilder::SndinfoMaxsamp)]));
    push_entry(&mut t, entry("sndinfo", "units", crate::sndinfo::usage::UNITS_USAGE, "INFO_MUSUNITS", vec![mode(1, "MU_MIDI_TO_FRQ", SpecBuilder::SndinfoUnits), mode(2, "MU_FRQ_TO_MIDI", SpecBuilder::SndinfoUnits)]));
    push_entry(&mut t, entry("sndinfo", "prntsnd", crate::sndinfo::prntsnd::USAGE, "INFO_PRNTSND", vec![exempt(None, "null", BY_HAND)]));
    push_entry(&mut t, entry("sndinfo", "findhole", crate::sndinfo::findhole::USAGE, "INFO_FINDHOLE", vec![exempt(None, "null", BY_HAND)]));
    push_entry(&mut t, entry("housekeep", "copy", crate::housekeep::copy::USAGE, "HOUSE_COPY", vec![mode(1, "COPYSF", SpecBuilder::HousekeepCopyOnce), exempt(Some(2), "DUPL", "needs the SNDFILENAME special-data mechanism, which the argument grammar does not model")]));
    push_entry(&mut t, entry("housekeep", "chans", crate::housekeep::chans::USAGE, "HOUSE_CHANS", vec![
        mode(1, "HOUSE_CHANNEL", SpecBuilder::HousekeepChansChannel),
        mode(2, "HOUSE_CHANNELS", SpecBuilder::HousekeepChansChannels),
        mode(3, "HOUSE_ZCHANNEL", SpecBuilder::HousekeepChansZchannel),
        mode(4, "STOM", SpecBuilder::HousekeepChansStom),
        mode(5, "MTOS", SpecBuilder::HousekeepChansMtos),
    ]));
    push_entry(&mut t, entry("housekeep", "respec", crate::housekeep::respec::USAGE, "HOUSE_SPEC", vec![
        exempt(Some(1), "HOUSE_RESAMPLE", "not implemented: cubic-spline resampling"),
        mode(2, "HOUSE_CONVERT", SpecBuilder::HousekeepRespecConvert),
        mode(3, "HOUSE_REPROP", SpecBuilder::HousekeepRespecReprop),
    ]));
    push_entry(&mut t, entry("housekeep", "bakup", crate::housekeep::bakup::USAGE, "HOUSE_BAKUP", vec![exempt(None, "null", "the implemented grammar has a splicelen argument that the command does not take")]));
    push_entry(&mut t, entry("housekeep", "bundle", crate::housekeep::bundle::USAGE, "HOUSE_BUNDLE", vec![
        exempt(Some(1), "null", BUNDLE_BY_HAND),
        exempt(Some(2), "null", BUNDLE_BY_HAND),
        exempt(Some(3), "null", BUNDLE_BY_HAND),
        exempt(Some(4), "null", BUNDLE_BY_HAND),
        exempt(Some(5), "null", BUNDLE_BY_HAND),
    ]));
    push_entry(&mut t, entry("housekeep", "extract", crate::housekeep::extract::USAGE, "HOUSE_EXTRACT", vec![exempt(Some(4), "HOUSE_RECTIFY", "the implemented mode ignores the required shift argument")]));
    push_entry(&mut t, entry("housekeep", "remove", crate::housekeep::remove::USAGE, "HOUSE_DEL", vec![exempt(None, "null", "missing the -a variant flag and the SNDFILENAME mechanism")]));
    push_entry(&mut t, entry("housekeep", "sort", crate::housekeep::sort::USAGE, "HOUSE_SORT", vec![
        exempt(Some(1), "BY_FILETYPE", SORT_RENUMBERED),
        exempt(Some(2), "BY_SRATE", SORT_RENUMBERED),
        exempt(Some(4), "BY_LOG_DUR", "the implemented mode 4 sorts by channel count, which is not one of the command's modes"),
    ]));
    push_entry(&mut t, entry("synth", "wave", crate::synth::wave::USAGE, "SYNTH_WAVE", vec![
        mode(1, "null", SpecBuilder::SynthWave),
        mode(2, "null", SpecBuilder::SynthWave),
        mode(3, "null", SpecBuilder::SynthWave),
        mode(4, "null", SpecBuilder::SynthWave),
    ]));
    let pvoc = CommandEntry {
        program: "pvoc",
        subcommand: "anal",
        usage: crate::pvoc::anal::USAGE,
        legacy_process: "PVOC_ANAL",
        launcher: None,
        modes: vec![mode(1, "null", SpecBuilder::PvocAnal)],
    };
    push_entry(&mut t, pvoc);
    t
}

} // verus!
