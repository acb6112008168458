//! The argument grammar: which words of a command line are input files, the
//! output file, required parameters, option flags and variant flags, and
//! which grammar error (if any) the command line makes.
//!
//! [`plan`] decides all of this from the words alone. Reading a numeric
//! value, range-checking it, loading a breakpoint file and opening an input
//! file are left to the caller, which performs the plan's steps in order:
//! the first step that fails gives the command's error; if every step
//! succeeds, the plan's own grammar error (if any) is the command's error.
//! So a value error on an earlier word is reported before a grammar error
//! on a later one.

use crate::params::error::{ParamsError, ParamsErrorView};
use crate::params::spec::{CommandSpec, OptionFlag, ParamType, Variant, variant_letter};
use vstd::prelude::*;
use vstd::string::*;

verus! {

/// Where a parsed value goes: the `k`th required parameter, or the flag or
/// variant with the given letter.
#[derive(Debug, Clone, Copy, PartialEq, Eq, Structural)]
pub enum Slot {
    Param(usize),
    Flag(char),
}

/// One step of a parse plan, performed by the caller in order.
#[derive(Debug)]
pub enum Step {
    /// Check that this input file can be opened for reading.
    OpenInfile(String),
    /// Read `token` as a value of `value_type`; an out-of-range value is
    /// reported as parameter `paramno`.
    Value { token: String, value_type: ParamType, paramno: usize, slot: Slot },
    /// The boolean variant with this letter is present.
    Present(char),
}

/// [`Step`] with its strings taken by their character sequences.
pub enum StepView {
    OpenInfile(Seq<char>),
    Value { token: Seq<char>, value_type: ParamType, paramno: nat, slot: Slot },
    Present(char),
}

impl View for Step {
    type V = StepView;

    open spec fn view(&self) -> StepView {
        match self {
            Step::OpenInfile(s) => StepView::OpenInfile(s@),
            Step::Value { token, value_type, paramno, slot } => StepView::Value {
                token: token@,
                value_type: *value_type,
                paramno: *paramno as nat,
                slot: *slot,
            },
            Step::Present(c) => StepView::Present(*c),
        }
    }
}

/// The outcome of [`plan`].
#[derive(Debug)]
pub struct ParsePlan {
    pub infiles: Vec<String>,
    /// `None` for a spec without an output file.
    pub outfile: Option<String>,
    pub steps: Vec<Step>,
    /// The grammar error reported once every step has succeeded.
    pub error: Option<ParamsError>,
}

/// [`ParsePlan`] with its strings taken by their character sequences.
pub struct PlanView {
    pub infiles: Seq<Seq<char>>,
    pub outfile: Option<Seq<char>>,
    pub steps: Seq<StepView>,
    pub error: Option<ParamsErrorView>,
}

/// The character sequences of a list of words.
pub open spec fn words(args: Seq<&str>) -> Seq<Seq<char>> {
    args.map_values(|t: &str| t@)
}

/// The character sequences of a list of strings.
pub open spec fn strings(v: Seq<String>) -> Seq<Seq<char>> {
    v.map_values(|t: String| t@)
}

/// The views of a list of steps.
pub open spec fn step_views(v: Seq<Step>) -> Seq<StepView> {
    v.map_values(|t: Step| t@)
}

impl View for ParsePlan {
    type V = PlanView;

    open spec fn view(&self) -> PlanView {
        PlanView {
            infiles: strings(self.infiles@),
            outfile: match self.outfile {
                Some(s) => Some(s@),
                None => None,
            },
            steps: step_views(self.steps@),
            error: match self.error {
                Some(e) => Some(e@),
                None => None,
            },
        }
    }
}

/// The flag letter of a word: its second character when it starts with `-`
/// and has one.
pub open spec fn dash_letter(t: Seq<char>) -> Option<char> {
    if t.len() >= 2 && t[0] == '-' {
        Some(t[1])
    } else {
        None
    }
}

/// What follows the letter of a flag word.
pub open spec fn flag_value(t: Seq<char>) -> Seq<char> {
    t.subrange(2, t.len() as int)
}

/// The first option flag from index `k` on whose letter is `c`.
pub open spec fn find_flag(flags: Seq<OptionFlag>, c: char, k: int) -> Option<OptionFlag>
    decreases flags.len() - k,
{
    if k < 0 || k >= flags.len() {
        None
    } else if flags[k].letter == c {
        Some(flags[k])
    } else {
        find_flag(flags, c, k + 1)
    }
}

/// The first variant from index `k` on whose letter is `c`.
pub open spec fn find_variant(variants: Seq<Variant>, c: char, k: int) -> Option<Variant>
    decreases variants.len() - k,
{
    if k < 0 || k >= variants.len() {
        None
    } else if variant_letter(variants[k]) == c {
        Some(variants[k])
    } else {
        find_variant(variants, c, k + 1)
    }
}

/// Where the option-flag phase ended: the index of the first word it did
/// not consume, the letters seen, or the error it stopped at.
pub struct PhaseOut {
    pub steps: Seq<StepView>,
    pub end: int,
    pub seen: Seq<char>,
    pub error: Option<ParamsErrorView>,
}

/// The step that records an option or value-variant word.
pub open spec fn value_step(t: Seq<char>, f: OptionFlag) -> StepView {
    StepView::Value {
        token: flag_value(t),
        value_type: f.value_type,
        paramno: f.range_check_paramno as nat,
        slot: Slot::Flag(t[1]),
    }
}

/// The option-flag phase from word `i` on, with the letters in `seen`
/// already given: a contiguous run of words whose letter is a known option.
/// A word that is not a flag is an error; a flag word whose letter is not a
/// known option ends the phase.
pub open spec fn option_phase(flags: Seq<OptionFlag>, rest: Seq<Seq<char>>, i: int, seen: Seq<char>) -> PhaseOut
    decreases rest.len() - i,
{
    if i < 0 || i >= rest.len() {
        PhaseOut { steps: seq![], end: i, seen, error: None }
    } else {
        let t = rest[i];
        match dash_letter(t) {
            None => PhaseOut { steps: seq![], end: i, seen, error: Some(ParamsErrorView::UnknownParameter(t)) },
            Some(c) => match find_flag(flags, c, 0) {
                None => PhaseOut { steps: seq![], end: i, seen, error: None },
                Some(f) => if t.len() == 2 {
                    PhaseOut { steps: seq![], end: i, seen, error: Some(ParamsErrorView::OptionValueMissing(c)) }
                } else if seen.contains(c) {
                    PhaseOut { steps: seq![], end: i, seen, error: Some(ParamsErrorView::DuplicateOption(c)) }
                } else {
                    let r = option_phase(flags, rest, i + 1, seen.push(c));
                    PhaseOut { steps: seq![value_step(t, f)] + r.steps, end: r.end, seen: r.seen, error: r.error }
                },
            },
        }
    }
}

/// What one word of the variant phase gives, with the letters in `seen`
/// already given: its step, or the error it is.
pub open spec fn variant_word(
    flags: Seq<OptionFlag>,
    variants: Seq<Variant>,
    t: Seq<char>,
    seen: Seq<char>,
) -> Result<StepView, ParamsErrorView> {
    match dash_letter(t) {
        None => Err(ParamsErrorView::UnknownParameter(t)),
        Some(c) => match find_variant(variants, c, 0) {
            Some(Variant::Value(f)) => if t.len() == 2 {
                Err(ParamsErrorView::VariantValueMissing(c))
            } else if seen.contains(c) {
                Err(ParamsErrorView::DuplicateFlag(c))
            } else {
                Ok(value_step(t, f))
            },
            Some(Variant::Boolean { .. }) => if seen.contains(c) {
                Err(ParamsErrorView::DuplicateFlag(c))
            } else {
                Ok(StepView::Present(c))
            },
            None => if find_flag(flags, c, 0) is Some {
                Err(ParamsErrorView::OptionOutOfOrder(c))
            } else {
                Err(ParamsErrorView::UnknownVariantFlag(c))
            },
        },
    }
}

/// The variant phase from word `i` on, consuming every remaining word.
pub open spec fn variant_phase(
    flags: Seq<OptionFlag>,
    variants: Seq<Variant>,
    rest: Seq<Seq<char>>,
    i: int,
    seen: Seq<char>,
) -> (Seq<StepView>, Option<ParamsErrorView>)
    decreases rest.len() - i,
{
    if i < 0 || i >= rest.len() {
        (seq![], None)
    } else {
        match variant_word(flags, variants, rest[i], seen) {
            Err(e) => (seq![], Some(e)),
            Ok(step) => {
                let r = variant_phase(flags, variants, rest, i + 1, seen.push(rest[i][1]));
                (seq![step] + r.0, r.1)
            },
        }
    }
}

/// The flags and variants of the words after the required parameters, for
/// a spec with at least one flag or variant.
pub open spec fn flags_and_variants(
    flags: Seq<OptionFlag>,
    variants: Seq<Variant>,
    rest: Seq<Seq<char>>,
) -> (Seq<StepView>, Option<ParamsErrorView>) {
    let p = if flags.len() > 0 {
        option_phase(flags, rest, 0, seq![])
    } else {
        PhaseOut { steps: seq![], end: 0, seen: seq![], error: None }
    };
    if p.error is Some {
        (p.steps, p.error)
    } else if variants.len() > 0 {
        let r = variant_phase(flags, variants, rest, p.end, p.seen);
        (p.steps + r.0, r.1)
    } else if 0 <= p.end < rest.len() {
        let t = rest[p.end];
        match dash_letter(t) {
            Some(c) => (p.steps, Some(ParamsErrorView::UnknownFlag(c))),
            None => (p.steps, Some(ParamsErrorView::UnknownParameter(t))),
        }
    } else {
        (p.steps, None)
    }
}

/// The plan of a command line `args` (the words after the program,
/// sub-command and mode) against `spec`.
pub open spec fn plan_of(spec: CommandSpec, args: Seq<Seq<char>>) -> PlanView {
    let n_in = spec.infile_count as int;
    let min_needed = n_in + if spec.has_outfile { 1int } else { 0int };
    let n_params = spec.params@.len() as int;
    if args.len() < min_needed {
        PlanView {
            infiles: seq![],
            outfile: None,
            steps: seq![],
            error: Some(
                if spec.unequal_sndfile {
                    ParamsErrorView::InsufficientParameters
                } else {
                    ParamsErrorView::InsufficientCmdlineParameters
                },
            ),
        }
    } else {
        let infiles = args.take(n_in);
        let outfile = if spec.has_outfile { Some(args[n_in]) } else { None };
        let opens = Seq::new(n_in as nat, |k: int| StepView::OpenInfile(args[k]));
        let rest = args.skip(min_needed);
        if rest.len() < n_params {
            PlanView {
                infiles,
                outfile,
                steps: opens,
                error: Some(
                    if rest.len() == 0 {
                        ParamsErrorView::InsufficientParameters
                    } else {
                        ParamsErrorView::InsufficientParametersOnCmdline
                    },
                ),
            }
        } else {
            let values = Seq::new(
                n_params as nat,
                |k: int|
                    StepView::Value {
                        token: rest[k],
                        value_type: spec.params@[k],
                        paramno: (k + 1) as nat,
                        slot: Slot::Param(k as usize),
                    },
            );
            let after = rest.skip(n_params);
            if spec.flags@.len() == 0 && spec.variants@.len() == 0 {
                PlanView {
                    infiles,
                    outfile,
                    steps: opens + values,
                    error: if after.len() > 0 {
                        Some(ParamsErrorView::TooManyParameters)
                    } else {
                        None
                    },
                }
            } else {
                let r = flags_and_variants(spec.flags@, spec.variants@, after);
                PlanView { infiles, outfile, steps: opens + values + r.0, error: r.1 }
            }
        }
    }
}

/// The flag letter of `t`, if it is a word starting with `-` that has a
/// second character.
fn dash_letter_exec(t: &str) -> (r: Option<char>)
    ensures
        r == dash_letter(t@),
{
    let len = t.unicode_len();
    if len >= 2 && t.get_char(0) == '-' {
        Some(t.get_char(1))
    } else {
        None
    }
}

/// The first option flag with letter `c`.
fn find_flag_exec(flags: &Vec<OptionFlag>, c: char) -> (r: Option<OptionFlag>)
    ensures
        r == find_flag(flags@, c, 0),
{
    let mut k: usize = 0;
    while k < flags.len()
        invariant
            k <= flags@.len(),
            find_flag(flags@, c, 0) == find_flag(flags@, c, k as int),
        decreases flags.len() - k,
    {
        if flags[k].letter == c {
            return Some(flags[k]);
        }
        k = k + 1;
    }
    None
}

/// The first variant with letter `c`.
fn find_variant_exec(variants: &Vec<Variant>, c: char) -> (r: Option<Variant>)
    ensures
        r == find_variant(variants@, c, 0),
{
    let mut k: usize = 0;
    while k < variants.len()
        invariant
            k <= variants@.len(),
            find_variant(variants@, c, 0) == find_variant(variants@, c, k as int),
        decreases variants.len() - k,
    {
        if variants[k].letter() == c {
            return Some(variants[k]);
        }
        k = k + 1;
    }
    None
}

/// Whether `c` occurs in `v`.
fn contains_char(v: &Vec<char>, c: char) -> (r: bool)
    ensures
        r == v@.contains(c),
{
    let mut k: usize = 0;
    while k < v.len()
        invariant
            k <= v@.len(),
            forall|j: int| 0 <= j < k ==> v@[j] != c,
        decreases v.len() - k,
    {
        if v[k] == c {
            return true;
        }
        k = k + 1;
    }
    false
}

/// The word `t` as an owned string.
fn owned(t: &str) -> (r: String)
    ensures
        r@ == t@,
{
    String::from_str(t)
}

/// The value part of a flag word (everything after its letter).
fn flag_value_exec(t: &str) -> (r: String)
    requires
        t@.len() >= 2,
    ensures
        r@ == flag_value(t@),
{
    let len = t.unicode_len();
    String::from_str(t.substring_char(2, len))
}


/// An optional error taken by its view.
pub open spec fn error_view(e: Option<ParamsError>) -> Option<ParamsErrorView> {
    match e {
        Some(e) => Some(e@),
        None => None,
    }
}

/// Appending a step appends its view.
proof fn lemma_step_views_push(s: Seq<Step>, t: Seq<Step>)
    requires
        t.len() == s.len() + 1,
        forall|k: int| 0 <= k < s.len() ==> t[k] == s[k],
    ensures
        step_views(t) == step_views(s).push(t.last()@),
{
    assert(step_views(t) =~= step_views(s).push(t.last()@));
}

/// `steps` with `step` appended.
fn push_step(steps: Vec<Step>, step: Step) -> (r: Vec<Step>)
    ensures
        r@ == steps@.push(step),
        step_views(r@) == step_views(steps@).push(step@),
{
    let mut r = steps;
    r.push(step);
    proof {
        lemma_step_views_push(steps@, r@);
    }
    r
}

/// Appending one step after a prefix is the same as prefixing it to what
/// follows.
proof fn lemma_append_step(so_far: Seq<StepView>, x: StepView, next: Seq<StepView>)
    ensures
        so_far.push(x) + next == so_far + (seq![x] + next),
{
    assert(so_far.push(x) + next =~= so_far + (seq![x] + next));
}

/// Runs the option-flag phase over `rest`: the steps it records, the index
/// of the first word it did not consume, the letters it consumed, and the
/// error it stopped at.
#[verifier::rlimit(40)]
fn option_phase_exec(flags: &Vec<OptionFlag>, rest: &[&str]) -> (r: (
    Vec<Step>,
    usize,
    Vec<char>,
    Option<ParamsError>,
))
    ensures
        step_views(r.0@) == option_phase(flags@, words(rest@), 0, seq![]).steps,
        r.1 <= rest@.len(),
        r.1 as int == option_phase(flags@, words(rest@), 0, seq![]).end,
        r.2@ == option_phase(flags@, words(rest@), 0, seq![]).seen,
        error_view(r.3) == option_phase(flags@, words(rest@), 0, seq![]).error,
{
    let mut steps: Vec<Step> = Vec::new();
    let mut seen: Vec<char> = Vec::new();
    let ghost w = words(rest@);
    let mut i: usize = 0;
    while i < rest.len()
        invariant
            w == words(rest@),
            w.len() == rest@.len(),
            i <= rest@.len(),
            option_phase(flags@, w, 0, seq![]).steps == step_views(steps@) + option_phase(flags@, w, i as int, seen@).steps,
            option_phase(flags@, w, 0, seq![]).end == option_phase(flags@, w, i as int, seen@).end,
            option_phase(flags@, w, 0, seq![]).seen == option_phase(flags@, w, i as int, seen@).seen,
            option_phase(flags@, w, 0, seq![]).error == option_phase(flags@, w, i as int, seen@).error,
        decreases rest.len() - i,
    {
        let t = rest[i];
        assert(w[i as int] == t@);
        let ghost so_far = step_views(steps@);
        let maybe_letter = dash_letter_exec(t);
        if maybe_letter.is_none() {
            assert(so_far + seq![] =~= so_far);
            return (steps, i, seen, Some(ParamsError::UnknownParameter(owned(t))));
        }
        let letter = maybe_letter.unwrap();
        let maybe_flag = find_flag_exec(flags, letter);
        if maybe_flag.is_none() {
            assert(so_far + seq![] =~= so_far);
            return (steps, i, seen, None);
        }
        let flag = maybe_flag.unwrap();
        if t.unicode_len() == 2 {
            assert(so_far + seq![] =~= so_far);
            return (steps, i, seen, Some(ParamsError::OptionValueMissing(letter)));
        }
        if contains_char(&seen, letter) {
            assert(so_far + seq![] =~= so_far);
            return (steps, i, seen, Some(ParamsError::DuplicateOption(letter)));
        }
        let value = flag_value_exec(t);
        let step = Step::Value {
            token: value,
            value_type: flag.value_type,
            paramno: flag.range_check_paramno,
            slot: Slot::Flag(letter),
        };
        let ghost sv = step@;
        seen.push(letter);
        steps = push_step(steps, step);
        proof {
            assert(sv == value_step(w[i as int], flag));
            let next = option_phase(flags@, w, i + 1, seen@);
            lemma_append_step(so_far, sv, next.steps);
        }
        i = i + 1;
    }
    assert(step_views(steps@) + seq![] =~= step_views(steps@));
    (steps, i, seen, None)
}

/// One word of the variant phase: its step, or the error it is.
fn variant_word_exec(
    flags: &Vec<OptionFlag>,
    variants: &Vec<Variant>,
    t: &str,
    seen: &Vec<char>,
) -> (r: Result<Step, ParamsError>)
    ensures
        match r {
            Ok(step) => variant_word(flags@, variants@, t@, seen@) == Ok::<StepView, ParamsErrorView>(step@),
            Err(e) => variant_word(flags@, variants@, t@, seen@) == Err::<StepView, ParamsErrorView>(e@),
        },
{
    let maybe_letter = dash_letter_exec(t);
    if maybe_letter.is_none() {
        return Err(ParamsError::UnknownParameter(owned(t)));
    }
    let letter = maybe_letter.unwrap();
    match find_variant_exec(variants, letter) {
        Some(Variant::Value(flag)) => {
            if t.unicode_len() == 2 {
                Err(ParamsError::VariantValueMissing(letter))
            } else if contains_char(seen, letter) {
                Err(ParamsError::DuplicateFlag(letter))
            } else {
                let value = flag_value_exec(t);
                Ok(Step::Value {
                    token: value,
                    value_type: flag.value_type,
                    paramno: flag.range_check_paramno,
                    slot: Slot::Flag(letter),
                })
            }
        },
        Some(Variant::Boolean { .. }) => {
            if contains_char(seen, letter) {
                Err(ParamsError::DuplicateFlag(letter))
            } else {
                Ok(Step::Present(letter))
            }
        },
        None => {
            if find_flag_exec(flags, letter).is_some() {
                Err(ParamsError::OptionOutOfOrder(letter))
            } else {
                Err(ParamsError::UnknownVariantFlag(letter))
            }
        },
    }
}

/// Runs the variant phase over `rest` from word `start`, with the letters
/// in `seen` already given: the steps it records and the error it stopped
/// at.
#[verifier::rlimit(40)]
fn variant_phase_exec(
    flags: &Vec<OptionFlag>,
    variants: &Vec<Variant>,
    rest: &[&str],
    start: usize,
    seen_in: Vec<char>,
) -> (r: (Vec<Step>, Option<ParamsError>))
    requires
        start <= rest@.len(),
    ensures
        step_views(r.0@) == variant_phase(flags@, variants@, words(rest@), start as int, seen_in@).0,
        error_view(r.1) == variant_phase(flags@, variants@, words(rest@), start as int, seen_in@).1,
{
    let mut steps: Vec<Step> = Vec::new();
    let mut seen = seen_in;
    let ghost w = words(rest@);
    let ghost seen0 = seen@;
    let mut i: usize = start;
    while i < rest.len()
        invariant
            w == words(rest@),
            w.len() == rest@.len(),
            start <= i <= rest@.len(),
            seen0 == seen_in@,
            variant_phase(flags@, variants@, w, start as int, seen0).0 == step_views(steps@)
                + variant_phase(flags@, variants@, w, i as int, seen@).0,
            variant_phase(flags@, variants@, w, start as int, seen0).1 == variant_phase(
                flags@,
                variants@,
                w,
                i as int,
                seen@,
            ).1,
        decreases rest.len() - i,
    {
        let t = rest[i];
        assert(w[i as int] == t@);
        let ghost so_far = step_views(steps@);
        match variant_word_exec(flags, variants, t, &seen) {
            Err(e) => {
                assert(so_far + seq![] =~= so_far);
                return (steps, Some(e));
            },
            Ok(step) => {
                let ghost sv = step@;
                let letter = t.get_char(1);
                seen.push(letter);
                steps = push_step(steps, step);
                proof {
                    let next = variant_phase(flags@, variants@, w, i + 1, seen@);
                    lemma_append_step(so_far, sv, next.0);
                }
            },
        }
        i = i + 1;
    }
    assert(step_views(steps@) + seq![] =~= step_views(steps@));
    (steps, None)
}

/// Views distribute over concatenation.
proof fn lemma_step_views_append(a: Seq<Step>, b: Seq<Step>)
    ensures
        step_views(a + b) == step_views(a) + step_views(b),
{
    assert(step_views(a + b) =~= step_views(a) + step_views(b));
}

/// The words of a tail of a word list are the tail of its words.
proof fn lemma_words_skip(args: Seq<&str>, n: int)
    requires
        0 <= n <= args.len(),
    ensures
        words(args.subrange(n, args.len() as int)) == words(args).skip(n),
{
    assert(words(args.subrange(n, args.len() as int)) =~= words(args).skip(n));
}

/// The flags and variants of the words after the required parameters.
fn flags_and_variants_exec(
    flags: &Vec<OptionFlag>,
    variants: &Vec<Variant>,
    rest: &[&str],
) -> (r: (Vec<Step>, Option<ParamsError>))
    ensures
        step_views(r.0@) == flags_and_variants(flags@, variants@, words(rest@)).0,
        error_view(r.1) == flags_and_variants(flags@, variants@, words(rest@)).1,
{
    let ghost w = words(rest@);
    let (mut steps, end, seen, error) = if flags.len() > 0 {
        option_phase_exec(flags, rest)
    } else {
        (Vec::new(), 0, Vec::new(), None)
    };
    assert(step_views(steps@) =~= (if flags@.len() > 0 {
        option_phase(flags@, w, 0, seq![])
    } else {
        PhaseOut { steps: seq![], end: 0, seen: seq![], error: None }
    }).steps);
    if error.is_some() {
        return (steps, error);
    }
    if variants.len() > 0 {
        let (mut more, e) = variant_phase_exec(flags, variants, rest, end, seen);
        let ghost a = steps@;
        let ghost b = more@;
        steps.append(&mut more);
        proof {
            lemma_step_views_append(a, b);
        }
        return (steps, e);
    }
    if end < rest.len() {
        let t = rest[end];
        assert(w[end as int] == t@);
        match dash_letter_exec(t) {
            Some(c) => (steps, Some(ParamsError::UnknownFlag(c))),
            None => (steps, Some(ParamsError::UnknownParameter(owned(t)))),
        }
    } else {
        (steps, None)
    }
}

/// The grammar error of a command line too short for its file names.
fn too_short_for_files(spec: &CommandSpec) -> (e: ParamsError)
    ensures
        e@ == (if spec.unequal_sndfile {
            ParamsErrorView::InsufficientParameters
        } else {
            ParamsErrorView::InsufficientCmdlineParameters
        }),
{
    if spec.unequal_sndfile {
        ParamsError::InsufficientParameters
    } else {
        ParamsError::InsufficientCmdlineParameters
    }
}

/// Plans the parse of `args` (the words after the program, sub-command and
/// mode) against `spec`: the input files, the output file, the steps the
/// caller performs in order, and the grammar error reported when every
/// step succeeds.
#[verifier::rlimit(60)]
pub fn plan(spec: &CommandSpec, args: &[&str]) -> (r: ParsePlan)
    ensures
        r@ == plan_of(*spec, words(args@)),
{
    let ghost w = words(args@);
    let n_in = spec.infile_count;
    let out_slot: usize = if spec.has_outfile { 1 } else { 0 };
    if args.len() < n_in || args.len() - n_in < out_slot {
        let r = ParsePlan {
            infiles: Vec::new(),
            outfile: None,
            steps: Vec::new(),
            error: Some(too_short_for_files(spec)),
        };
        assert(r@.infiles =~= seq![]);
        assert(r@.steps =~= seq![]);
        return r;
    }
    let min_needed = n_in + out_slot;
    let mut infiles: Vec<String> = Vec::new();
    let mut steps: Vec<Step> = Vec::new();
    let mut k: usize = 0;
    while k < n_in
        invariant
            w == words(args@),
            n_in == spec.infile_count,
            n_in <= args@.len(),
            k <= n_in,
            strings(infiles@) == w.take(k as int),
            step_views(steps@) == Seq::new(k as nat, |j: int| StepView::OpenInfile(w[j])),
        decreases n_in - k,
    {
        let ghost before = infiles@;
        let name = owned(args[k]);
        assert(name@ == w[k as int]);
        infiles.push(name);
        assert(strings(infiles@) =~= strings(before).push(w[k as int]));
        steps = push_step(steps, Step::OpenInfile(owned(args[k])));
        assert(strings(infiles@) =~= w.take(k + 1));
        assert(step_views(steps@) =~= Seq::new((k + 1) as nat, |j: int| StepView::OpenInfile(w[j])));
        k = k + 1;
    }
    let ghost opens = step_views(steps@);
    let outfile = if spec.has_outfile {
        Some(owned(args[n_in]))
    } else {
        None
    };
    let (_, rest) = args.split_at(min_needed);
    proof {
        lemma_words_skip(args@, min_needed as int);
    }
    let ghost wr = words(rest@);
    assert(wr == w.skip(min_needed as int));
    let n_params = spec.params.len();
    if rest.len() < n_params {
        let error = if rest.len() == 0 {
            ParamsError::InsufficientParameters
        } else {
            ParamsError::InsufficientParametersOnCmdline
        };
        return ParsePlan { infiles, outfile, steps, error: Some(error) };
    }
    let mut j: usize = 0;
    while j < n_params
        invariant
            wr == words(rest@),
            n_params == spec.params@.len(),
            n_params <= rest@.len(),
            j <= n_params,
            step_views(steps@) == opens + Seq::new(
                j as nat,
                |k: int|
                    StepView::Value {
                        token: wr[k],
                        value_type: spec.params@[k],
                        paramno: (k + 1) as nat,
                        slot: Slot::Param(k as usize),
                    },
            ),
        decreases n_params - j,
    {
        let step = Step::Value {
            token: owned(rest[j]),
            value_type: spec.params[j],
            paramno: j + 1,
            slot: Slot::Param(j),
        };
        steps = push_step(steps, step);
        assert(step_views(steps@) =~= opens + Seq::new(
            (j + 1) as nat,
            |k: int|
                StepView::Value {
                    token: wr[k],
                    value_type: spec.params@[k],
                    paramno: (k + 1) as nat,
                    slot: Slot::Param(k as usize),
                },
        ));
        j = j + 1;
    }
    if spec.flags.len() == 0 && spec.variants.len() == 0 {
        let error = if rest.len() > n_params {
            Some(ParamsError::TooManyParameters)
        } else {
            None
        };
        return ParsePlan { infiles, outfile, steps, error };
    }
    let (_, after) = rest.split_at(n_params);
    proof {
        lemma_words_skip(rest@, n_params as int);
    }
    let (mut more, error) = flags_and_variants_exec(&spec.flags, &spec.variants, after);
    let ghost a = steps@;
    let ghost b = more@;
    steps.append(&mut more);
    proof {
        lemma_step_views_append(a, b);
    }
    ParsePlan { infiles, outfile, steps, error }
}

} // verus!
