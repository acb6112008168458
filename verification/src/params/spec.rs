//! What the argument grammar needs to know about one process/mode: how many
//! input files, whether there is an output file, the required positional
//! parameters, the option flags and the variant flags.

use vstd::prelude::*;

verus! {

/// An exact range bound `num / den` (the ranges include values such as
/// `1/32767` that no decimal literal writes exactly).
#[derive(Debug, Clone, Copy, PartialEq, Eq, Structural)]
pub struct Bound {
    pub num: i64,
    pub den: u64,
}

/// The whole number `n` as a bound.
pub open spec fn whole(n: i64) -> Bound {
    Bound { num: n, den: 1 }
}

impl Bound {
    /// The whole number `n` as a bound.
    pub fn whole(n: i64) -> (b: Bound)
        ensures
            b == whole(n),
    {
        Bound { num: n, den: 1 }
    }

    /// The fraction `num / den`.
    pub fn ratio(num: i64, den: u64) -> (b: Bound)
        ensures
            b == (Bound { num, den }),
    {
        Bound { num, den }
    }
}

/// One parameter's type and (for the numeric types) valid range.
#[derive(Debug, Clone, Copy, PartialEq, Eq, Structural)]
pub enum ParamType {
    /// A number, or else the name of a breakpoint file whose values are
    /// range-checked point by point.
    DoubleOrBreakpoint { lo: Bound, hi: Bound },
    /// A plain number with no breakpoint-file fallback. `legacy_index` is
    /// the parameter number the "cannot read" message names.
    Double { lo: Bound, hi: Bound, legacy_index: usize },
    /// Read exactly like [`ParamType::Double`], then truncated toward zero.
    Int { lo: Bound, hi: Bound, legacy_index: usize },
    /// [`ParamType::Int`]'s breakpoint-capable counterpart.
    IntOrBreakpoint { lo: Bound, hi: Bound },
    /// A positional input file argument.
    File,
}

/// One `-<letter><value>` option flag. The value follows the letter with no
/// space in between.
#[derive(Debug, Clone, Copy, PartialEq, Eq, Structural)]
pub struct OptionFlag {
    pub letter: char,
    pub value_type: ParamType,
    /// The 1-based parameter number an out-of-range value is reported at.
    pub range_check_paramno: usize,
}

/// One variant flag: either value-carrying (shaped like an [`OptionFlag`])
/// or boolean (only its presence matters; whatever follows the letter is
/// ignored).
#[derive(Debug, Clone, Copy, PartialEq, Eq, Structural)]
pub enum Variant {
    Value(OptionFlag),
    Boolean { letter: char },
}

/// The letter of a variant flag.
pub open spec fn variant_letter(v: Variant) -> char {
    match v {
        Variant::Value(flag) => flag.letter,
        Variant::Boolean { letter } => letter,
    }
}

impl Variant {
    /// The flag letter.
    pub fn letter(&self) -> (c: char)
        ensures
            c == variant_letter(*self),
    {
        match self {
            Variant::Value(flag) => flag.letter,
            Variant::Boolean { letter } => *letter,
        }
    }
}

/// One process/mode's full argument list: `infile_count` input files, then
/// an output file name when `has_outfile`, then `params` (required, in
/// order), then `flags` (optional, a contiguous run in any order), then
/// `variants` (optional, everything left).
#[derive(Debug, Clone)]
pub struct CommandSpec {
    pub infile_count: usize,
    pub has_outfile: bool,
    pub params: Vec<ParamType>,
    pub flags: Vec<OptionFlag>,
    pub variants: Vec<Variant>,
    /// Whether a command line too short even for the file names reports
    /// "Insufficient parameters on command line." (`true`) rather than
    /// "Insufficient cmdline parameters." (`false`).
    pub unequal_sndfile: bool,
}

/// A spec's fields, in order.
pub open spec fn spec_is(
    s: CommandSpec,
    infile_count: usize,
    has_outfile: bool,
    params: Seq<ParamType>,
    flags: Seq<OptionFlag>,
    variants: Seq<Variant>,
    unequal_sndfile: bool,
) -> bool {
    &&& s.infile_count == infile_count
    &&& s.has_outfile == has_outfile
    &&& s.params@ == params
    &&& s.flags@ == flags
    &&& s.variants@ == variants
    &&& s.unequal_sndfile == unequal_sndfile
}

/// The level flag `-l` shared by `modify loudness` modes 3 and 4: a plain
/// number in `1/32767 ..= 1`.
pub open spec fn loudness_level_flag() -> OptionFlag {
    OptionFlag {
        letter: 'l',
        value_type: ParamType::Double {
            lo: Bound { num: 1, den: 32767 },
            hi: whole(1),
            legacy_index: 2,
        },
        range_check_paramno: 1,
    }
}

impl CommandSpec {
    /// `modify loudness 1 infile outfile gain`: one breakpoint-capable
    /// number in `0 ..= 32767`.
    pub fn modify_loudness_gain() -> (s: CommandSpec)
        ensures
            spec_is(
                s,
                1,
                true,
                seq![ParamType::DoubleOrBreakpoint { lo: whole(0), hi: whole(32767) }],
                seq![],
                seq![],
                false,
            ),
    {
        let mut params = Vec::new();
        params.push(ParamType::DoubleOrBreakpoint { lo: Bound::whole(0), hi: Bound::whole(32767) });
        CommandSpec {
            infile_count: 1,
            has_outfile: true,
            params,
            flags: Vec::new(),
            variants: Vec::new(),
            unequal_sndfile: false,
        }
    }

    /// `modify loudness 3 infile outfile [-llevel]`.
    pub fn modify_loudness_normalise() -> (s: CommandSpec)
        ensures
            spec_is(s, 1, true, seq![], seq![loudness_level_flag()], seq![], false),
    {
        let mut flags = Vec::new();
        flags.push(
            OptionFlag {
                letter: 'l',
                value_type: ParamType::Double {
                    lo: Bound::ratio(1, 32767),
                    hi: Bound::whole(1),
                    legacy_index: 2,
                },
                range_check_paramno: 1,
            },
        );
        CommandSpec {
            infile_count: 1,
            has_outfile: true,
            params: Vec::new(),
            flags,
            variants: Vec::new(),
            unequal_sndfile: false,
        }
    }

    /// `modify loudness 4 infile outfile [-llevel]`: the same grammar as
    /// mode 3.
    pub fn modify_loudness_force_level() -> (s: CommandSpec)
        ensures
            spec_is(s, 1, true, seq![], seq![loudness_level_flag()], seq![], false),
    {
        Self::modify_loudness_normalise()
    }

    /// `pvoc anal mode infile outfile [-cpoints] [-ooverlap]`: two integer
    /// options, `-c` in `2 ..= 32768` and `-o` in `1 ..= 4`.
    pub fn pvoc_anal() -> (s: CommandSpec)
        ensures
            spec_is(
                s,
                1,
                true,
                seq![],
                seq![
                    OptionFlag {
                        letter: 'c',
                        value_type: ParamType::Int { lo: whole(2), hi: whole(32768), legacy_index: 1 },
                        range_check_paramno: 1,
                    },
                    OptionFlag {
                        letter: 'o',
                        value_type: ParamType::Int { lo: whole(1), hi: whole(4), legacy_index: 2 },
                        range_check_paramno: 2,
                    },
                ],
                seq![],
                false,
            ),
    {
        let flags = vec![
            OptionFlag {
                letter: 'c',
                value_type: ParamType::Int {
                    lo: Bound::whole(2),
                    hi: Bound::whole(32768),
                    legacy_index: 1,
                },
                range_check_paramno: 1,
            },
            OptionFlag {
                letter: 'o',
                value_type: ParamType::Int {
                    lo: Bound::whole(1),
                    hi: Bound::whole(4),
                    legacy_index: 2,
                },
                range_check_paramno: 2,
            },
        ];
        CommandSpec {
            infile_count: 1,
            has_outfile: true,
            params: Vec::new(),
            flags,
            variants: Vec::new(),
            unequal_sndfile: false,
        }
    }

    /// `distort repeat infile outfile multiplier [-ccyclecnt]
    /// [-sskipcycles]`: a required breakpoint-capable integer in
    /// `2 ..= 32767`, an option `-c` in `1 ..= 32767` and a value variant
    /// `-s` in `0 ..= 32767`, numbered 1, 2 and 3.
    pub fn distort_repeat() -> (s: CommandSpec)
        ensures
            spec_is(
                s,
                1,
                true,
                seq![ParamType::IntOrBreakpoint { lo: whole(2), hi: whole(32767) }],
                seq![
                    OptionFlag {
                        letter: 'c',
                        value_type: ParamType::IntOrBreakpoint { lo: whole(1), hi: whole(32767) },
                        range_check_paramno: 2,
                    },
                ],
                seq![
                    Variant::Value(
                        OptionFlag {
                            letter: 's',
                            value_type: ParamType::Int { lo: whole(0), hi: whole(32767), legacy_index: 3 },
                            range_check_paramno: 3,
                        },
                    ),
                ],
                true,
            ),
    {
        let mut params = Vec::new();
        params.push(ParamType::IntOrBreakpoint { lo: Bound::whole(2), hi: Bound::whole(32767) });
        let mut flags = Vec::new();
        flags.push(
            OptionFlag {
                letter: 'c',
                value_type: ParamType::IntOrBreakpoint { lo: Bound::whole(1), hi: Bound::whole(32767) },
                range_check_paramno: 2,
            },
        );
        let mut variants = Vec::new();
        variants.push(
            Variant::Value(
                OptionFlag {
                    letter: 's',
                    value_type: ParamType::Int {
                        lo: Bound::whole(0),
                        hi: Bound::whole(32767),
                        legacy_index: 3,
                    },
                    range_check_paramno: 3,
                },
            ),
        );
        CommandSpec { infile_count: 1, has_outfile: true, params, flags, variants, unequal_sndfile: true }
    }

    /// `synth wave mode outfile sr chans dur freq [-aamp] [-ttabsize]`, plus
    /// the boolean variant `-f`. `sr` in `16000 ..= 192000`, `chans` in
    /// `1 ..= 16`, `dur` in `0.04 ..= 7200`, `freq` in `0.1 ..= 22000`,
    /// `-a` in `0 ..= 1`, `-t` in `256 ..= 4096`; numbered 1 to 6.
    pub fn synth_wave() -> (s: CommandSpec)
        ensures
            spec_is(
                s,
                0,
                true,
                seq![
                    ParamType::Int { lo: whole(16000), hi: whole(192000), legacy_index: 1 },
                    ParamType::Int { lo: whole(1), hi: whole(16), legacy_index: 2 },
                    ParamType::Double { lo: Bound { num: 4, den: 100 }, hi: whole(7200), legacy_index: 3 },
                    ParamType::DoubleOrBreakpoint { lo: Bound { num: 1, den: 10 }, hi: whole(22000) },
                ],
                seq![
                    OptionFlag {
                        letter: 'a',
                        value_type: ParamType::DoubleOrBreakpoint { lo: whole(0), hi: whole(1) },
                        range_check_paramno: 5,
                    },
                    OptionFlag {
                        letter: 't',
                        value_type: ParamType::Int { lo: whole(256), hi: whole(4096), legacy_index: 6 },
                        range_check_paramno: 6,
                    },
                ],
                seq![Variant::Boolean { letter: 'f' }],
                true,
            ),
    {
        let params = vec![
            ParamType::Int { lo: Bound::whole(16000), hi: Bound::whole(192000), legacy_index: 1 },
            ParamType::Int { lo: Bound::whole(1), hi: Bound::whole(16), legacy_index: 2 },
            ParamType::Double { lo: Bound::ratio(4, 100), hi: Bound::whole(7200), legacy_index: 3 },
            ParamType::DoubleOrBreakpoint { lo: Bound::ratio(1, 10), hi: Bound::whole(22000) },
        ];
        let flags = vec![
            OptionFlag {
                letter: 'a',
                value_type: ParamType::DoubleOrBreakpoint { lo: Bound::whole(0), hi: Bound::whole(1) },
                range_check_paramno: 5,
            },
            OptionFlag {
                letter: 't',
                value_type: ParamType::Int {
                    lo: Bound::whole(256),
                    hi: Bound::whole(4096),
                    legacy_index: 6,
                },
                range_check_paramno: 6,
            },
        ];
        let mut variants = Vec::new();
        variants.push(Variant::Boolean { letter: 'f' });
        CommandSpec { infile_count: 0, has_outfile: true, params, flags, variants, unequal_sndfile: true }
    }

    /// `sndinfo props infile`: one input file and nothing else, not even an
    /// output file.
    pub fn sndinfo_props() -> (s: CommandSpec)
        ensures
            spec_is(s, 1, false, seq![], seq![], seq![], false),
    {
        CommandSpec {
            infile_count: 1,
            has_outfile: false,
            params: Vec::new(),
            flags: Vec::new(),
            variants: Vec::new(),
            unequal_sndfile: false,
        }
    }

    /// `sndinfo len infile`: the same shape as `sndinfo props`.
    pub fn sndinfo_len() -> (s: CommandSpec)
        ensures
            spec_is(s, 1, false, seq![], seq![], seq![], false),
    {
        Self::sndinfo_props()
    }
}

/// The splice flag `-s` of `sndinfo sumlen`: a plain number of
/// milliseconds in `0 ..= 2000`.
pub open spec fn splice_flag() -> OptionFlag {
    OptionFlag {
        letter: 's',
        value_type: ParamType::Double { lo: whole(0), hi: whole(2000), legacy_index: 1 },
        range_check_paramno: 1,
    }
}

/// The grammar of the words after the input files of `sndinfo sumlen`:
/// only the optional `-s` flag.
pub fn splice_flag_spec() -> (s: CommandSpec)
    ensures
        spec_is(s, 0, false, seq![], seq![splice_flag()], seq![], false),
{
    let mut flags = Vec::new();
    flags.push(
        OptionFlag {
            letter: 's',
            value_type: ParamType::Double { lo: Bound::whole(0), hi: Bound::whole(2000), legacy_index: 1 },
            range_check_paramno: 1,
        },
    );
    let r = CommandSpec {
        infile_count: 0,
        has_outfile: false,
        params: Vec::new(),
        flags,
        variants: Vec::new(),
        unequal_sndfile: false,
    };
    assert(r.flags@ =~= seq![splice_flag()]);
    r
}

} // verus!
