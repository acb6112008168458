//! The decisions of the command-line front ends: the per-program launchers
//! (`synth`, `sndinfo`, `housekeep`, ...) and the unified `cdp` program.
//! Printing and exiting are left to the caller.

use crate::error::{CdpError, ExitCategory};
use crate::text::{decimal, push_decimal, push_str, same_text};
use vstd::prelude::*;
use vstd::string::*;

verus! {

/// The release a launcher reports for `--version`.
pub open spec fn version_of(program: Seq<char>) -> Option<Seq<char>> {
    if program == "synth"@ {
        Some("7.1.1"@)
    } else if program == "sndinfo"@ {
        Some("7.1.0"@)
    } else if program == "housekeep"@ {
        Some("7.1.1"@)
    } else {
        None
    }
}

/// The release a launcher reports for `--version`, or `None` for a program
/// without a recorded release.
pub fn program_version(program: &str) -> (r: Option<&'static str>)
    ensures
        match version_of(program@) {
            Some(v) => r matches Some(s) && s@ == v,
            None => r is None,
        },
{
    if same_text(program, "synth") {
        Some("7.1.1")
    } else if same_text(program, "sndinfo") {
        Some("7.1.0")
    } else if same_text(program, "housekeep") {
        Some("7.1.1")
    } else {
        None
    }
}

/// What a launcher does with its arguments.
#[derive(Debug, Clone, Copy, PartialEq, Eq)]
pub enum LauncherStep {
    /// Print this release and exit with success.
    Version(&'static str),
    /// `--version` for a program without a recorded release: report it and
    /// exit with failure.
    NoVersion,
    /// Run the program with the arguments.
    Dispatch,
}

/// What the launcher of `program` does with `args`: a lone `--version` asks
/// for the release; anything else runs the program.
pub fn launcher_step(program: &str, args: &Vec<String>) -> (r: LauncherStep)
    ensures
        args@.len() == 1 && args@[0]@ == "--version"@ ==> match version_of(program@) {
            Some(v) => r matches LauncherStep::Version(s) && s@ == v,
            None => r == LauncherStep::NoVersion,
        },
        !(args@.len() == 1 && args@[0]@ == "--version"@) ==> r == LauncherStep::Dispatch,
{
    if args.len() == 1 && same_text(args[0].as_str(), "--version") {
        match program_version(program) {
            Some(v) => LauncherStep::Version(v),
            None => LauncherStep::NoVersion,
        }
    } else {
        LauncherStep::Dispatch
    }
}

/// What the unified `cdp` program does with its arguments.
#[derive(Debug, Clone, Copy, PartialEq, Eq, Structural)]
pub enum UnifiedStep {
    /// Print the package version and exit with success.
    OwnVersion,
    /// Print the help text and exit with this status.
    Help { exit_code: i32 },
    /// Run the program named by the first argument with the rest.
    Dispatch,
}

/// What `cdp` does with `args`: `--version` prints its version, `--help`
/// or no argument at all prints the help (failing when there was no
/// argument), anything else names the program to run.
pub fn unified_step(args: &Vec<String>) -> (r: UnifiedStep)
    ensures
        args@.len() == 0 ==> r == (UnifiedStep::Help { exit_code: 1 }),
        args@.len() > 0 && args@[0]@ == "--version"@ ==> r == UnifiedStep::OwnVersion,
        args@.len() > 0 && args@[0]@ == "--help"@ ==> r == (UnifiedStep::Help { exit_code: 0 }),
        args@.len() > 0 && args@[0]@ != "--version"@ && args@[0]@ != "--help"@ ==> r
            == UnifiedStep::Dispatch,
{
    proof {
        reveal_strlit("--version");
        reveal_strlit("--help");
        assert("--version"@.len() == 9);
        assert("--help"@.len() == 6);
        assert("--version"@ != "--help"@);
    }
    if args.len() == 0 {
        UnifiedStep::Help { exit_code: 1 }
    } else if same_text(args[0].as_str(), "--version") {
        UnifiedStep::OwnVersion
    } else if same_text(args[0].as_str(), "--help") {
        UnifiedStep::Help { exit_code: 0 }
    } else {
        UnifiedStep::Dispatch
    }
}

/// The failure for a mode number that is in range but not implemented.
pub fn mode_not_implemented(command: &str, mode: u32) -> (e: CdpError)
    ensures
        e.category == ExitCategory::ProgramError,
        e.message@ == command@ + ": mode "@ + decimal(mode as nat) + " is not implemented yet"@,
{
    let mut message = String::from_str(command);
    push_str(&mut message, ": mode ");
    push_decimal(&mut message, mode as u64);
    push_str(&mut message, " is not implemented yet");
    CdpError { category: ExitCategory::ProgramError, message }
}

/// A command the front ends can run.
#[derive(Debug, Clone, Copy, PartialEq, Eq, Structural)]
pub enum Route {
    SynthWave,
    PvocAnal,
    SndinfoProps,
    SndinfoLen,
    SndinfoSmptime,
    SndinfoTimesmp,
    SndinfoTimediff,
    SndinfoLens,
    SndinfoSumlen,
    SndinfoUnits,
    SndinfoMaxsamp,
    HousekeepCopy,
    HousekeepChans,
    HousekeepRespec,
}

/// Where a program and sub-command lead.
#[derive(Debug)]
pub enum Dispatch {
    /// Run this command with the remaining arguments.
    Run(Route),
    /// Print this message on standard error and exit with failure.
    Unknown(String),
    /// Report the program's usage text.
    Usage,
}

/// The sub-commands of `sndinfo` that can run.
pub open spec fn sndinfo_route(sub: Seq<char>) -> Option<Route> {
    if sub == "props"@ {
        Some(Route::SndinfoProps)
    } else if sub == "len"@ {
        Some(Route::SndinfoLen)
    } else if sub == "smptime"@ {
        Some(Route::SndinfoSmptime)
    } else if sub == "timesmp"@ {
        Some(Route::SndinfoTimesmp)
    } else if sub == "timediff"@ {
        Some(Route::SndinfoTimediff)
    } else if sub == "lens"@ {
        Some(Route::SndinfoLens)
    } else if sub == "sumlen"@ {
        Some(Route::SndinfoSumlen)
    } else if sub == "units"@ {
        Some(Route::SndinfoUnits)
    } else if sub == "maxsamp"@ {
        Some(Route::SndinfoMaxsamp)
    } else {
        None
    }
}

/// The sub-commands of `housekeep` that can run.
pub open spec fn housekeep_route(sub: Seq<char>) -> Option<Route> {
    if sub == "copy"@ {
        Some(Route::HousekeepCopy)
    } else if sub == "chans"@ {
        Some(Route::HousekeepChans)
    } else if sub == "respec"@ {
        Some(Route::HousekeepRespec)
    } else {
        None
    }
}

/// The list of `sndinfo` sub-commands named in its messages.
pub open spec fn sndinfo_names() -> Seq<char> {
    "'props'/'len'/'smptime'/'timesmp'/'timediff'/'lens'/'sumlen'/'units'/'maxsamp'"@
}

/// Where `program` with sub-command `sub` (the first argument after the
/// program, if any) leads, as a route or the message refusing it.
pub open spec fn dispatch_of(program: Seq<char>, sub: Option<Seq<char>>) -> Result<Route, Option<Seq<char>>> {
    if program == "synth"@ {
        match sub {
            Some(s) => if s == "wave"@ {
                Ok(Route::SynthWave)
            } else {
                Err(Some("synth: '"@ + s + "' is not implemented yet (only 'wave' is)"@))
            },
            None => Err(Some("synth: missing sub-command (only 'wave' is implemented)"@)),
        }
    } else if program == "pvoc"@ {
        match sub {
            Some(s) => if s == "anal"@ {
                Ok(Route::PvocAnal)
            } else {
                Err(Some("pvoc: '"@ + s + "' is not implemented yet (only 'anal' is)"@))
            },
            None => Err(Some("pvoc: missing sub-command (only 'anal' is implemented)"@)),
        }
    } else if program == "sndinfo"@ {
        match sub {
            Some(s) => match sndinfo_route(s) {
                Some(r) => Ok(r),
                None => Err(Some("sndinfo: '"@ + s + "' is not implemented yet (only "@ + sndinfo_names() + " are)"@)),
            },
            None => Err(Some("sndinfo: missing sub-command (only "@ + sndinfo_names() + " are implemented)"@)),
        }
    } else if program == "housekeep"@ {
        match sub {
            Some(s) => match housekeep_route(s) {
                Some(r) => Ok(r),
                None => Err(Some("housekeep: '"@ + s + "' is not implemented yet (only 'copy'/'chans'/'respec' are)"@)),
            },
            None => Err(None),
        }
    } else {
        Err(Some("cdp: '"@ + program + "' is not implemented yet"@))
    }
}

/// The program and sub-command words that name each command.
pub open spec fn route_name(route: Route) -> (Seq<char>, Seq<char>) {
    match route {
        Route::SynthWave => ("synth"@, "wave"@),
        Route::PvocAnal => ("pvoc"@, "anal"@),
        Route::SndinfoProps => ("sndinfo"@, "props"@),
        Route::SndinfoLen => ("sndinfo"@, "len"@),
        Route::SndinfoSmptime => ("sndinfo"@, "smptime"@),
        Route::SndinfoTimesmp => ("sndinfo"@, "timesmp"@),
        Route::SndinfoTimediff => ("sndinfo"@, "timediff"@),
        Route::SndinfoLens => ("sndinfo"@, "lens"@),
        Route::SndinfoSumlen => ("sndinfo"@, "sumlen"@),
        Route::SndinfoUnits => ("sndinfo"@, "units"@),
        Route::SndinfoMaxsamp => ("sndinfo"@, "maxsamp"@),
        Route::HousekeepCopy => ("housekeep"@, "copy"@),
        Route::HousekeepChans => ("housekeep"@, "chans"@),
        Route::HousekeepRespec => ("housekeep"@, "respec"@),
    }
}

/// Each program and sub-command runs the command of that name: whatever
/// command a program and sub-command lead to is named by them, and a
/// program with no sub-command runs nothing.
pub proof fn lemma_routes_run_their_own_command(program: Seq<char>, sub: Option<Seq<char>>)
    ensures
        dispatch_of(program, sub) matches Ok(route) ==> sub is Some && route_name(route) == (
            program,
            sub.unwrap(),
        ),
{
}

/// Every command is reached by its own program and sub-command words.
pub proof fn lemma_every_command_is_reached(route: Route)
    ensures
        dispatch_of(route_name(route).0, Some(route_name(route).1)) == Ok::<Route, Option<Seq<char>>>(
            route,
        ),
{
    reveal_strlit("synth");
    reveal_strlit("pvoc");
    reveal_strlit("sndinfo");
    reveal_strlit("housekeep");
    reveal_strlit("wave");
    reveal_strlit("anal");
    reveal_strlit("props");
    reveal_strlit("len");
    reveal_strlit("smptime");
    reveal_strlit("timesmp");
    reveal_strlit("timediff");
    reveal_strlit("lens");
    reveal_strlit("sumlen");
    reveal_strlit("units");
    reveal_strlit("maxsamp");
    reveal_strlit("copy");
    reveal_strlit("chans");
    reveal_strlit("respec");
    let w = |t: Seq<char>| t.len() as int * 1000 + t[0] as int;
    assert(w("synth"@) != w("pvoc"@) && w("synth"@) != w("sndinfo"@) && w("synth"@) != w("housekeep"@));
    assert(w("pvoc"@) != w("sndinfo"@) && w("pvoc"@) != w("housekeep"@) && w("sndinfo"@) != w("housekeep"@));
    match route {
        Route::SndinfoProps | Route::SndinfoLen | Route::SndinfoSmptime | Route::SndinfoTimesmp
        | Route::SndinfoTimediff | Route::SndinfoLens | Route::SndinfoSumlen | Route::SndinfoUnits
        | Route::SndinfoMaxsamp => {
            assert("props"@[0] != "len"@[0] && "props"@.len() != "smptime"@.len() && "props"@[0] != "timesmp"@[0]);
            assert("props"@[0] != "timediff"@[0] && "props"@[0] != "lens"@[0] && "props"@[0] != "sumlen"@[0]);
            assert("props"@[0] != "units"@[0] && "props"@[0] != "maxsamp"@[0]);
            assert("len"@.len() != "smptime"@.len() && "len"@[0] != "timesmp"@[0] && "len"@[0] != "timediff"@[0]);
            assert("len"@.len() != "lens"@.len() && "len"@[0] != "sumlen"@[0] && "len"@[0] != "units"@[0]);
            assert("len"@[0] != "maxsamp"@[0]);
            assert("smptime"@[0] != "timesmp"@[0] && "smptime"@[0] != "timediff"@[0] && "smptime"@[0] != "lens"@[0]);
            assert("smptime"@.len() != "sumlen"@.len() && "smptime"@[0] != "units"@[0] && "smptime"@[0] != "maxsamp"@[0]);
            assert("timesmp"@.len() != "timediff"@.len() && "timesmp"@[0] != "lens"@[0] && "timesmp"@[0] != "sumlen"@[0]);
            assert("timesmp"@[0] != "units"@[0] && "timesmp"@[0] != "maxsamp"@[0]);
            assert("timediff"@[0] != "lens"@[0] && "timediff"@[0] != "sumlen"@[0] && "timediff"@[0] != "units"@[0]);
            assert("timediff"@[0] != "maxsamp"@[0]);
            assert("lens"@[0] != "sumlen"@[0] && "lens"@[0] != "units"@[0] && "lens"@[0] != "maxsamp"@[0]);
            assert("sumlen"@[0] != "units"@[0] && "sumlen"@[0] != "maxsamp"@[0] && "units"@[0] != "maxsamp"@[0]);
        },
        Route::HousekeepCopy | Route::HousekeepChans | Route::HousekeepRespec => {
            assert("copy"@.len() != "chans"@.len() && "copy"@[0] != "respec"@[0] && "chans"@[0] != "respec"@[0]);
        },
        _ => {},
    }
}

/// `prefix`, then `middle`, then `suffix`, as a new string.
fn framed(prefix: &str, middle: &str, suffix: &str) -> (r: String)
    ensures
        r@ == prefix@ + middle@ + suffix@,
{
    let mut r = String::from_str(prefix);
    push_str(&mut r, middle);
    push_str(&mut r, suffix);
    r
}

/// Where `program` with sub-command `sub` leads: a command to run, a
/// message refusing an unknown program or sub-command, or (for a bare
/// `housekeep`) the usage text.
pub fn dispatch_route(program: &str, sub: Option<&str>) -> (r: Dispatch)
    ensures
        match dispatch_of(program@, match sub {
            Some(s) => Some(s@),
            None => None,
        }) {
            Ok(route) => r == Dispatch::Run(route),
            Err(Some(message)) => r matches Dispatch::Unknown(m) && m@ == message,
            Err(None) => r is Usage,
        },
        r matches Dispatch::Run(route) ==> sub is Some && route_name(route) == (program@, sub.unwrap()@),
{
    let names = "'props'/'len'/'smptime'/'timesmp'/'timediff'/'lens'/'sumlen'/'units'/'maxsamp'";
    proof {
        reveal_strlit("'props'/'len'/'smptime'/'timesmp'/'timediff'/'lens'/'sumlen'/'units'/'maxsamp'");
    }
    if same_text(program, "synth") {
        match sub {
            Some(s) => if same_text(s, "wave") {
                Dispatch::Run(Route::SynthWave)
            } else {
                Dispatch::Unknown(framed("synth: '", s, "' is not implemented yet (only 'wave' is)"))
            },
            None => Dispatch::Unknown(String::from_str("synth: missing sub-command (only 'wave' is implemented)")),
        }
    } else if same_text(program, "pvoc") {
        match sub {
            Some(s) => if same_text(s, "anal") {
                Dispatch::Run(Route::PvocAnal)
            } else {
                Dispatch::Unknown(framed("pvoc: '", s, "' is not implemented yet (only 'anal' is)"))
            },
            None => Dispatch::Unknown(String::from_str("pvoc: missing sub-command (only 'anal' is implemented)")),
        }
    } else if same_text(program, "sndinfo") {
        match sub {
            Some(s) => {
                if same_text(s, "props") {
                    Dispatch::Run(Route::SndinfoProps)
                } else if same_text(s, "len") {
                    Dispatch::Run(Route::SndinfoLen)
                } else if same_text(s, "smptime") {
                    Dispatch::Run(Route::SndinfoSmptime)
                } else if same_text(s, "timesmp") {
                    Dispatch::Run(Route::SndinfoTimesmp)
                } else if same_text(s, "timediff") {
                    Dispatch::Run(Route::SndinfoTimediff)
                } else if same_text(s, "lens") {
                    Dispatch::Run(Route::SndinfoLens)
                } else if same_text(s, "sumlen") {
                    Dispatch::Run(Route::SndinfoSumlen)
                } else if same_text(s, "units") {
                    Dispatch::Run(Route::SndinfoUnits)
                } else if same_text(s, "maxsamp") {
                    Dispatch::Run(Route::SndinfoMaxsamp)
                } else {
                    let mut m = framed("sndinfo: '", s, "' is not implemented yet (only ");
                    push_str(&mut m, names);
                    push_str(&mut m, " are)");
                    Dispatch::Unknown(m)
                }
            },
            None => Dispatch::Unknown(framed("sndinfo: missing sub-command (only ", names, " are implemented)")),
        }
    } else if same_text(program, "housekeep") {
        match sub {
            Some(s) => {
                if same_text(s, "copy") {
                    Dispatch::Run(Route::HousekeepCopy)
                } else if same_text(s, "chans") {
                    Dispatch::Run(Route::HousekeepChans)
                } else if same_text(s, "respec") {
                    Dispatch::Run(Route::HousekeepRespec)
                } else {
                    Dispatch::Unknown(framed("housekeep: '", s, "' is not implemented yet (only 'copy'/'chans'/'respec' are)"))
                }
            },
            None => Dispatch::Usage,
        }
    } else {
        Dispatch::Unknown(framed("cdp: '", program, "' is not implemented yet"))
    }
}

/// What a command does before it parses its words: print its usage text
/// and fail, print the greeting and run, print the greeting and fail for
/// too few parameters, or run straight away.
#[derive(Debug, Clone, Copy, PartialEq, Eq)]
pub enum Preamble {
    Usage(&'static str),
    Greeting(&'static str),
    GreetingThenTooFew(&'static str),
    Run,
}

/// The usage text printed by a bare `route`.
pub open spec fn usage_text(route: Route) -> Seq<char> {
    match route {
        Route::SynthWave => crate::synth::wave::USAGE@,
        Route::PvocAnal => crate::pvoc::anal::USAGE@,
        Route::SndinfoProps => crate::sndinfo::usage::PROPS_USAGE@,
        Route::SndinfoLen => crate::sndinfo::usage::LEN_USAGE@,
        Route::SndinfoSmptime => crate::sndinfo::usage::SMPTIME_USAGE@,
        Route::SndinfoTimesmp => crate::sndinfo::usage::TIMESMP_USAGE@,
        Route::SndinfoTimediff => crate::sndinfo::usage::TIMEDIFF_USAGE@,
        Route::SndinfoLens => crate::sndinfo::lens::USAGE@,
        Route::SndinfoSumlen => crate::sndinfo::usage::SUMLEN_USAGE@,
        Route::SndinfoUnits => crate::sndinfo::usage::UNITS_USAGE@,
        Route::SndinfoMaxsamp => crate::sndinfo::usage::MAXSAMP_USAGE@,
        Route::HousekeepCopy => crate::housekeep::copy::USAGE@,
        Route::HousekeepChans => crate::housekeep::chans::USAGE@,
        Route::HousekeepRespec => crate::housekeep::respec::USAGE@,
    }
}

/// Whether `route` is a `housekeep` sub-command.
pub open spec fn is_housekeep(route: Route) -> bool {
    route == Route::HousekeepCopy || route == Route::HousekeepChans || route == Route::HousekeepRespec
}

/// Whether `route` prints the greeting when given a single word (the
/// `sndinfo` sub-commands other than `timediff`).
pub open spec fn greets_single_word(route: Route) -> bool {
    route != Route::SynthWave && route != Route::PvocAnal && route != Route::SndinfoTimediff
        && !is_housekeep(route)
}

/// What `route` does before parsing, given `n` words after the
/// sub-command: no word at all prints its usage text; a single word (the
/// input file, or the mode of `units`) makes an `sndinfo` sub-command
/// other than `timediff` print the greeting before it runs, and makes a
/// `housekeep` sub-command print the greeting and fail, whatever the mode
/// word is; anything else runs straight away.
pub fn preamble(route: Route, n: usize) -> (r: Preamble)
    ensures
        n == 0 ==> (r matches Preamble::Usage(u) && u@ == usage_text(route)),
        n == 1 && greets_single_word(route) ==> (r matches Preamble::Greeting(g) && g@
            == crate::sndinfo::usage::GREETING@),
        n == 1 && is_housekeep(route) ==> (r matches Preamble::GreetingThenTooFew(g) && g@
            == crate::housekeep::copy::GREETING@),
        n == 1 && !greets_single_word(route) && !is_housekeep(route) ==> r == Preamble::Run,
        n > 1 ==> r == Preamble::Run,
{
    if n == 0 {
        let u = match route {
            Route::SynthWave => crate::synth::wave::USAGE,
            Route::PvocAnal => crate::pvoc::anal::USAGE,
            Route::SndinfoProps => crate::sndinfo::usage::PROPS_USAGE,
            Route::SndinfoLen => crate::sndinfo::usage::LEN_USAGE,
            Route::SndinfoSmptime => crate::sndinfo::usage::SMPTIME_USAGE,
            Route::SndinfoTimesmp => crate::sndinfo::usage::TIMESMP_USAGE,
            Route::SndinfoTimediff => crate::sndinfo::usage::TIMEDIFF_USAGE,
            Route::SndinfoLens => crate::sndinfo::lens::USAGE,
            Route::SndinfoSumlen => crate::sndinfo::usage::SUMLEN_USAGE,
            Route::SndinfoUnits => crate::sndinfo::usage::UNITS_USAGE,
            Route::SndinfoMaxsamp => crate::sndinfo::usage::MAXSAMP_USAGE,
            Route::HousekeepCopy => crate::housekeep::copy::USAGE,
            Route::HousekeepChans => crate::housekeep::chans::USAGE,
            Route::HousekeepRespec => crate::housekeep::respec::USAGE,
        };
        Preamble::Usage(u)
    } else if n == 1 {
        match route {
            Route::SynthWave | Route::PvocAnal | Route::SndinfoTimediff => Preamble::Run,
            Route::HousekeepCopy | Route::HousekeepChans | Route::HousekeepRespec => {
                Preamble::GreetingThenTooFew(crate::housekeep::copy::GREETING)
            },
            _ => Preamble::Greeting(crate::sndinfo::usage::GREETING),
        }
    } else {
        Preamble::Run
    }
}

} // verus!
