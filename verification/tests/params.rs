use cdp::params::error::ParamsError;
use cdp::params::mode::{parse_mode, scan_leading_int};
use cdp::params::parser::{plan, ParsePlan, Slot, Step};
use cdp::params::spec::{splice_flag_spec, Bound, CommandSpec, ParamType};

#[test]
fn plain_mode_in_range() {
    assert_eq!(parse_mode("3", 4).unwrap(), 3);
}

#[test]
fn truncates_at_first_non_digit() {
    assert_eq!(parse_mode("3.5", 4).unwrap(), 3);
    assert_eq!(parse_mode("3abc", 4).unwrap(), 3);
}

#[test]
fn no_leading_digits_is_unreadable() {
    assert!(matches!(parse_mode("abc", 4), Err(ParamsError::CannotReadModeOfProgram)));
}

#[test]
fn zero_and_negative_are_out_of_range() {
    assert!(matches!(parse_mode("0", 4), Err(ParamsError::ModeOutOfRange { mode: 0, maxmode: 4 })));
    assert!(matches!(parse_mode("-1", 4), Err(ParamsError::ModeOutOfRange { mode: -1, maxmode: 4 })));
}

#[test]
fn above_maxmode_is_out_of_range() {
    assert!(matches!(parse_mode("9", 4), Err(ParamsError::ModeOutOfRange { mode: 9, maxmode: 4 })));
}

#[test]
fn leading_integer_scan_stops_at_overflow_and_signs() {
    assert_eq!(scan_leading_int("+12x"), Some(12));
    assert_eq!(scan_leading_int("-"), None);
    assert_eq!(scan_leading_int("99999999999999999999"), None);
    assert_eq!(scan_leading_int("  7"), None);
}

#[test]
fn mode_errors_render_their_messages() {
    let e = parse_mode("12", 4).unwrap_err();
    assert_eq!(e.message(), "Program mode value [12] is out of range [1 - 4].");
    assert_eq!(parse_mode("x", 4).unwrap_err().message(), "Cannot read mode of program.");
}

fn grammar_error(p: &ParsePlan) -> Option<&ParamsError> {
    p.error.as_ref()
}

fn value_tokens(p: &ParsePlan) -> Vec<(String, usize, Slot)> {
    p.steps
        .iter()
        .filter_map(|s| match s {
            Step::Value { token, paramno, slot, .. } => Some((token.clone(), *paramno, *slot)),
            _ => None,
        })
        .collect()
}

#[test]
fn valid_command_parses() {
    let p = plan(&CommandSpec::modify_loudness_gain(), &["in.wav", "out.wav", "0.5"]);
    assert!(grammar_error(&p).is_none());
    assert_eq!(p.infiles, vec!["in.wav".to_string()]);
    assert_eq!(p.outfile.as_deref(), Some("out.wav"));
    assert!(matches!(&p.steps[0], Step::OpenInfile(f) if f == "in.wav"));
    assert_eq!(value_tokens(&p), vec![("0.5".to_string(), 1, Slot::Param(0))]);
}

#[test]
fn missing_outfile_and_gain_is_insufficient_cmdline_parameters() {
    let p = plan(&CommandSpec::modify_loudness_gain(), &["in.wav"]);
    assert!(matches!(grammar_error(&p), Some(ParamsError::InsufficientCmdlineParameters)));
    assert!(p.steps.is_empty());
}

#[test]
fn missing_just_gain_is_insufficient_parameters() {
    let p = plan(&CommandSpec::modify_loudness_gain(), &["in.wav", "out.wav"]);
    assert!(matches!(grammar_error(&p), Some(ParamsError::InsufficientParameters)));
    assert_eq!(p.steps.len(), 1);
}

#[test]
fn extra_trailing_word_is_too_many_parameters() {
    let p = plan(&CommandSpec::modify_loudness_gain(), &["in.wav", "out.wav", "0.5", "extra"]);
    assert!(matches!(grammar_error(&p), Some(ParamsError::TooManyParameters)));
    assert_eq!(value_tokens(&p).len(), 1);
}

#[test]
fn normalise_with_no_flag_parses() {
    let p = plan(&CommandSpec::modify_loudness_normalise(), &["in.wav", "out.wav"]);
    assert!(grammar_error(&p).is_none());
    assert!(value_tokens(&p).is_empty());
}

#[test]
fn normalise_with_attached_flag_value_parses() {
    let p = plan(&CommandSpec::modify_loudness_normalise(), &["in.wav", "out.wav", "-l0.5"]);
    assert!(grammar_error(&p).is_none());
    assert_eq!(value_tokens(&p), vec![("0.5".to_string(), 1, Slot::Flag('l'))]);
}

#[test]
fn normalise_bare_flag_with_no_value_is_option_value_missing() {
    let p = plan(&CommandSpec::modify_loudness_normalise(), &["in.wav", "out.wav", "-l"]);
    assert!(matches!(grammar_error(&p), Some(ParamsError::OptionValueMissing('l'))));
}

#[test]
fn normalise_space_separated_flag_value_is_also_option_value_missing() {
    let p = plan(&CommandSpec::modify_loudness_normalise(), &["in.wav", "out.wav", "-l", "0.5"]);
    assert!(matches!(grammar_error(&p), Some(ParamsError::OptionValueMissing('l'))));
}

#[test]
fn normalise_unknown_flag_is_unknown_flag() {
    let p = plan(&CommandSpec::modify_loudness_normalise(), &["in.wav", "out.wav", "-x0.5"]);
    assert!(matches!(grammar_error(&p), Some(ParamsError::UnknownFlag('x'))));
}

#[test]
fn normalise_leftover_non_flag_token_is_unknown_parameter() {
    let p = plan(&CommandSpec::modify_loudness_normalise(), &["in.wav", "out.wav", "0.5"]);
    assert!(matches!(grammar_error(&p), Some(ParamsError::UnknownParameter(s)) if s == "0.5"));
}

#[test]
fn normalise_duplicate_flag_is_duplicate_option_even_when_second_value_is_out_of_range() {
    let p = plan(&CommandSpec::modify_loudness_normalise(), &["in.wav", "out.wav", "-l0.5", "-l1.5"]);
    assert!(matches!(grammar_error(&p), Some(ParamsError::DuplicateOption('l'))));
    assert_eq!(value_tokens(&p), vec![("0.5".to_string(), 1, Slot::Flag('l'))]);
}

#[test]
fn pvoc_anal_with_no_flags_parses() {
    let p = plan(&CommandSpec::pvoc_anal(), &["in.wav", "out.ana"]);
    assert!(grammar_error(&p).is_none());
    assert!(value_tokens(&p).is_empty());
}

#[test]
fn pvoc_anal_with_both_flags_in_either_order_parses_as_integers() {
    let p = plan(&CommandSpec::pvoc_anal(), &["in.wav", "out.ana", "-c512", "-o2"]);
    assert!(grammar_error(&p).is_none());
    assert_eq!(
        value_tokens(&p),
        vec![("512".to_string(), 1, Slot::Flag('c')), ("2".to_string(), 2, Slot::Flag('o'))]
    );
    let p = plan(&CommandSpec::pvoc_anal(), &["in.wav", "out.ana", "-o2", "-c512"]);
    assert!(grammar_error(&p).is_none());
    assert_eq!(
        value_tokens(&p),
        vec![("2".to_string(), 2, Slot::Flag('o')), ("512".to_string(), 1, Slot::Flag('c'))]
    );
}

#[test]
fn pvoc_anal_errors_report_in_command_line_order_not_by_paramno() {
    let p = plan(&CommandSpec::pvoc_anal(), &["in.wav", "out.ana", "-o5", "-c1"]);
    assert_eq!(value_tokens(&p)[0].1, 2);
    let p = plan(&CommandSpec::pvoc_anal(), &["in.wav", "out.ana", "-c1", "-o5"]);
    assert_eq!(value_tokens(&p)[0].1, 1);
}

#[test]
fn pvoc_anal_bare_flag_with_no_value_is_option_value_missing() {
    let p = plan(&CommandSpec::pvoc_anal(), &["in.wav", "out.ana", "-c"]);
    assert!(matches!(grammar_error(&p), Some(ParamsError::OptionValueMissing('c'))));
}

#[test]
fn pvoc_anal_unknown_flag_is_unknown_flag() {
    let p = plan(&CommandSpec::pvoc_anal(), &["in.wav", "out.ana", "-x5"]);
    assert!(matches!(grammar_error(&p), Some(ParamsError::UnknownFlag('x'))));
}

#[test]
fn pvoc_anal_leftover_non_flag_token_is_unknown_parameter() {
    let p = plan(&CommandSpec::pvoc_anal(), &["in.wav", "out.ana", "extra"]);
    assert!(matches!(grammar_error(&p), Some(ParamsError::UnknownParameter(s)) if s == "extra"));
}

#[test]
fn pvoc_anal_duplicate_flag_is_duplicate_option_even_when_second_value_is_out_of_range() {
    let p = plan(&CommandSpec::pvoc_anal(), &["in.wav", "out.ana", "-c512", "-c99999"]);
    assert!(matches!(grammar_error(&p), Some(ParamsError::DuplicateOption('c'))));
}

#[test]
fn pvoc_anal_duplicate_flag_missing_value_still_reports_option_value_missing_first() {
    let p = plan(&CommandSpec::pvoc_anal(), &["in.wav", "out.ana", "-c512", "-c"]);
    assert!(matches!(grammar_error(&p), Some(ParamsError::OptionValueMissing('c'))));
}

#[test]
fn distort_repeat_with_just_multiplier_parses() {
    let p = plan(&CommandSpec::distort_repeat(), &["in.wav", "out.wav", "3"]);
    assert!(grammar_error(&p).is_none());
    assert_eq!(value_tokens(&p), vec![("3".to_string(), 1, Slot::Param(0))]);
}

#[test]
fn distort_repeat_with_option_and_variant_in_order_parses() {
    let p = plan(&CommandSpec::distort_repeat(), &["in.wav", "out.wav", "3", "-c2", "-s1"]);
    assert!(grammar_error(&p).is_none());
    assert_eq!(
        value_tokens(&p),
        vec![
            ("3".to_string(), 1, Slot::Param(0)),
            ("2".to_string(), 2, Slot::Flag('c')),
            ("1".to_string(), 3, Slot::Flag('s')),
        ]
    );
}

#[test]
fn distort_repeat_variant_before_option_is_option_out_of_order() {
    let p = plan(&CommandSpec::distort_repeat(), &["in.wav", "out.wav", "3", "-s1", "-c2"]);
    assert!(matches!(grammar_error(&p), Some(ParamsError::OptionOutOfOrder('c'))));
}

#[test]
fn distort_repeat_missing_just_multiplier_is_insufficient_parameters() {
    let p = plan(&CommandSpec::distort_repeat(), &["in.wav", "out.wav"]);
    assert!(matches!(grammar_error(&p), Some(ParamsError::InsufficientParameters)));
}

#[test]
fn distort_repeat_just_infile_is_insufficient_parameters_not_insufficient_cmdline() {
    let p = plan(&CommandSpec::distort_repeat(), &["in.wav"]);
    assert!(matches!(grammar_error(&p), Some(ParamsError::InsufficientParameters)));
}

#[test]
fn distort_repeat_leftover_non_flag_token_is_unknown_parameter() {
    let p = plan(&CommandSpec::distort_repeat(), &["in.wav", "out.wav", "3", "-c2", "-s1", "extra"]);
    assert!(matches!(grammar_error(&p), Some(ParamsError::UnknownParameter(s)) if s == "extra"));
}

#[test]
fn distort_repeat_duplicate_option_is_duplicate_option() {
    let p = plan(&CommandSpec::distort_repeat(), &["in.wav", "out.wav", "3", "-c2", "-c4"]);
    assert!(matches!(grammar_error(&p), Some(ParamsError::DuplicateOption('c'))));
}

#[test]
fn distort_repeat_duplicate_variant_is_duplicate_flag() {
    let p = plan(&CommandSpec::distort_repeat(), &["in.wav", "out.wav", "3", "-s1", "-s2"]);
    assert!(matches!(grammar_error(&p), Some(ParamsError::DuplicateFlag('s'))));
}

#[test]
fn distort_repeat_duplicate_variant_missing_value_reports_missing_value_first() {
    let p = plan(&CommandSpec::distort_repeat(), &["in.wav", "out.wav", "3", "-s1", "-s"]);
    assert!(matches!(grammar_error(&p), Some(ParamsError::VariantValueMissing('s'))));
}

#[test]
fn distort_repeat_bare_variant_with_no_value_is_variant_value_missing() {
    let p = plan(&CommandSpec::distort_repeat(), &["in.wav", "out.wav", "3", "-c2", "-s"]);
    assert!(matches!(grammar_error(&p), Some(ParamsError::VariantValueMissing('s'))));
}

#[test]
fn distort_repeat_unrecognised_variant_flag_is_unknown_variant_flag() {
    let p = plan(&CommandSpec::distort_repeat(), &["in.wav", "out.wav", "3", "-c2", "-z5"]);
    assert!(matches!(grammar_error(&p), Some(ParamsError::UnknownVariantFlag('z'))));
}

#[test]
fn synth_wave_with_no_flags_parses_all_four_required_params_in_order() {
    let p = plan(&CommandSpec::synth_wave(), &["out.wav", "44100", "1", "1.0", "440"]);
    assert!(grammar_error(&p).is_none());
    assert!(p.infiles.is_empty());
    assert_eq!(
        value_tokens(&p),
        vec![
            ("44100".to_string(), 1, Slot::Param(0)),
            ("1".to_string(), 2, Slot::Param(1)),
            ("1.0".to_string(), 3, Slot::Param(2)),
            ("440".to_string(), 4, Slot::Param(3)),
        ]
    );
}

#[test]
fn synth_wave_with_options_and_boolean_variant_parses() {
    let p = plan(&CommandSpec::synth_wave(), &["out.wav", "44100", "1", "1.0", "440", "-a0.5", "-t512", "-f"]);
    assert!(grammar_error(&p).is_none());
    assert!(matches!(p.steps.last(), Some(Step::Present('f'))));
    assert_eq!(value_tokens(&p)[4], ("0.5".to_string(), 5, Slot::Flag('a')));
    assert_eq!(value_tokens(&p)[5], ("512".to_string(), 6, Slot::Flag('t')));
}

#[test]
fn synth_wave_boolean_variant_with_attached_value_is_silently_discarded() {
    let p = plan(&CommandSpec::synth_wave(), &["out.wav", "44100", "1", "1.0", "440", "-f999"]);
    assert!(grammar_error(&p).is_none());
    assert!(matches!(p.steps.last(), Some(Step::Present('f'))));
}

#[test]
fn synth_wave_boolean_variant_before_option_is_option_out_of_order() {
    let p = plan(&CommandSpec::synth_wave(), &["out.wav", "44100", "1", "1.0", "440", "-f", "-a0.5"]);
    assert!(matches!(grammar_error(&p), Some(ParamsError::OptionOutOfOrder('a'))));
}

#[test]
fn synth_wave_duplicate_boolean_variant_is_duplicate_flag() {
    let p = plan(&CommandSpec::synth_wave(), &["out.wav", "44100", "1", "1.0", "440", "-f", "-f"]);
    assert!(matches!(grammar_error(&p), Some(ParamsError::DuplicateFlag('f'))));
}

#[test]
fn synth_wave_zero_required_params_given_is_insufficient_parameters() {
    let p = plan(&CommandSpec::synth_wave(), &["out.wav"]);
    assert!(matches!(grammar_error(&p), Some(ParamsError::InsufficientParameters)));
}

#[test]
fn synth_wave_no_arguments_at_all_is_insufficient_parameters() {
    let p = plan(&CommandSpec::synth_wave(), &[]);
    assert!(matches!(grammar_error(&p), Some(ParamsError::InsufficientParameters)));
}

#[test]
fn synth_wave_partial_required_params_is_insufficient_parameters_on_cmdline() {
    for args in [vec!["out.wav", "44100"], vec!["out.wav", "44100", "1"], vec!["out.wav", "44100", "1", "1.0"]] {
        let p = plan(&CommandSpec::synth_wave(), &args);
        assert!(matches!(grammar_error(&p), Some(ParamsError::InsufficientParametersOnCmdline)));
    }
}

#[test]
fn synth_wave_required_params_are_numbered_1_through_4() {
    let p = plan(&CommandSpec::synth_wave(), &["out.wav", "999999", "1", "1.0", "440"]);
    let numbers: Vec<usize> = value_tokens(&p).iter().map(|v| v.1).collect();
    assert_eq!(numbers, vec![1, 2, 3, 4]);
}

#[test]
fn synth_wave_options_continue_numbering_at_5_and_6() {
    let p = plan(&CommandSpec::synth_wave(), &["out.wav", "44100", "1", "1.0", "440", "-a1.5", "-t99999"]);
    let numbers: Vec<usize> = value_tokens(&p).iter().map(|v| v.1).collect();
    assert_eq!(numbers, vec![1, 2, 3, 4, 5, 6]);
}

#[test]
fn synth_wave_leftover_non_flag_token_is_unknown_parameter() {
    let p = plan(&CommandSpec::synth_wave(), &["out.wav", "44100", "1", "1.0", "440", "-a0.5", "extra"]);
    assert!(matches!(grammar_error(&p), Some(ParamsError::UnknownParameter(s)) if s == "extra"));
}

#[test]
fn grammar_errors_carry_their_categories_and_messages() {
    let e = ParamsError::OptionOutOfOrder('a');
    assert_eq!(e.message(), "option flag -a out of order on cmdline.");
    assert_eq!(e.category(), cdp::error::ExitCategory::UserError);
    let c = ParamsError::UnknownParameter("x".to_string()).to_cdp_error();
    assert_eq!(c.message, "Unknown parameter 'x'");
    assert_eq!(c.category, cdp::error::ExitCategory::UsageOnly);
}

/// What performing a plan's steps gives: each value read, or the first
/// failure. Files are taken to exist when named in `existing`; a word of a
/// breakpoint-capable type that is not a number names a breakpoint file,
/// and no breakpoint file exists here.
#[derive(Debug, PartialEq)]
enum Run {
    Values(Vec<(Slot, f64)>),
    CannotOpenFile(String),
    Breakpoint(String),
    ValueOutOfRange { paramno: usize, value: f64, lo: f64, hi: f64 },
    CannotReadParameter { legacy_index: usize },
    Grammar,
}

fn bound(b: Bound) -> f64 {
    b.num as f64 / b.den as f64
}

fn run_steps(p: &ParsePlan, existing: &[&str]) -> Run {
    let mut values = Vec::new();
    for step in &p.steps {
        match step {
            Step::OpenInfile(f) => {
                if !existing.contains(&f.as_str()) {
                    return Run::CannotOpenFile(f.clone());
                }
            }
            Step::Value { token, value_type, paramno, slot } => {
                let (lo, hi, breakpoints, legacy_index, integer) = match *value_type {
                    ParamType::DoubleOrBreakpoint { lo, hi } => (lo, hi, true, 0, false),
                    ParamType::IntOrBreakpoint { lo, hi } => (lo, hi, true, 0, true),
                    ParamType::Double { lo, hi, legacy_index } => (lo, hi, false, legacy_index, false),
                    ParamType::Int { lo, hi, legacy_index } => (lo, hi, false, legacy_index, true),
                    ParamType::File => unreachable!(),
                };
                let value = match token.parse::<f64>() {
                    Ok(v) => v,
                    Err(_) if breakpoints => {
                        return Run::Breakpoint(format!("Can't open brkpntfile {token} to read data."))
                    }
                    Err(_) => return Run::CannotReadParameter { legacy_index },
                };
                let (lo, hi) = (bound(lo), bound(hi));
                if value < lo || value > hi {
                    return Run::ValueOutOfRange { paramno: *paramno, value, lo, hi };
                }
                values.push((*slot, if integer { (value as i64) as f64 } else { value }));
            }
            Step::Present(_) => {}
        }
    }
    if p.error.is_some() {
        return Run::Grammar;
    }
    Run::Values(values)
}

#[test]
fn nonexistent_infile_is_cannot_open_file() {
    let p = plan(&CommandSpec::modify_loudness_gain(), &["/no/such/infile.wav", "out.wav", "0.5"]);
    assert_eq!(run_steps(&p, &[]), Run::CannotOpenFile("/no/such/infile.wav".to_string()));
}

#[test]
fn gain_above_range_is_value_out_of_range() {
    let p = plan(&CommandSpec::modify_loudness_gain(), &["in.wav", "out.wav", "99999"]);
    assert!(matches!(
        run_steps(&p, &["in.wav"]),
        Run::ValueOutOfRange { paramno: 1, lo, hi, .. } if lo == 0.0 && hi == 32767.0
    ));
}

#[test]
fn negative_gain_is_value_out_of_range() {
    let p = plan(&CommandSpec::modify_loudness_gain(), &["in.wav", "out.wav", "-1"]);
    assert!(matches!(run_steps(&p, &["in.wav"]), Run::ValueOutOfRange { paramno: 1, .. }));
}

#[test]
fn unparseable_gain_is_retried_as_a_breakpoint_file_and_fails_to_open() {
    let p = plan(&CommandSpec::modify_loudness_gain(), &["in.wav", "out.wav", "abc"]);
    assert_eq!(
        run_steps(&p, &["in.wav"]),
        Run::Breakpoint("Can't open brkpntfile abc to read data.".to_string())
    );
}

#[test]
fn normalise_flag_above_range_is_value_out_of_range_with_paramno_1() {
    let p = plan(&CommandSpec::modify_loudness_normalise(), &["in.wav", "out.wav", "-l1.5"]);
    assert!(matches!(
        run_steps(&p, &["in.wav"]),
        Run::ValueOutOfRange { paramno: 1, value, .. } if value == 1.5
    ));
}

#[test]
fn normalise_flag_unparseable_value_is_cannot_read_parameter_not_a_breakpoint_attempt() {
    let p = plan(&CommandSpec::modify_loudness_normalise(), &["in.wav", "out.wav", "-labc"]);
    assert_eq!(run_steps(&p, &["in.wav"]), Run::CannotReadParameter { legacy_index: 2 });
}

#[test]
fn force_level_mode_4_behaves_the_same_as_normalise() {
    let p = plan(&CommandSpec::modify_loudness_force_level(), &["in.wav", "out.wav", "-l1.5"]);
    assert!(matches!(run_steps(&p, &["in.wav"]), Run::ValueOutOfRange { paramno: 1, .. }));
}

#[test]
fn pvoc_anal_fractional_points_truncates_toward_zero() {
    let p = plan(&CommandSpec::pvoc_anal(), &["in.wav", "out.ana", "-c512.9"]);
    assert_eq!(run_steps(&p, &["in.wav"]), Run::Values(vec![(Slot::Flag('c'), 512.0)]));
}

#[test]
fn pvoc_anal_points_out_of_range_reports_paramno_1() {
    let p = plan(&CommandSpec::pvoc_anal(), &["in.wav", "out.ana", "-c99999"]);
    assert!(matches!(
        run_steps(&p, &["in.wav"]),
        Run::ValueOutOfRange { paramno: 1, lo, hi, .. } if lo == 2.0 && hi == 32768.0
    ));
}

#[test]
fn pvoc_anal_overlap_out_of_range_reports_paramno_2() {
    let p = plan(&CommandSpec::pvoc_anal(), &["in.wav", "out.ana", "-o5"]);
    assert!(matches!(
        run_steps(&p, &["in.wav"]),
        Run::ValueOutOfRange { paramno: 2, lo, hi, .. } if lo == 1.0 && hi == 4.0
    ));
}

#[test]
fn pvoc_anal_unparseable_points_is_cannot_read_parameter_1() {
    let p = plan(&CommandSpec::pvoc_anal(), &["in.wav", "out.ana", "-cabc"]);
    assert_eq!(run_steps(&p, &["in.wav"]), Run::CannotReadParameter { legacy_index: 1 });
}

#[test]
fn pvoc_anal_unparseable_overlap_is_cannot_read_parameter_2() {
    let p = plan(&CommandSpec::pvoc_anal(), &["in.wav", "out.ana", "-oabc"]);
    assert_eq!(run_steps(&p, &["in.wav"]), Run::CannotReadParameter { legacy_index: 2 });
}

#[test]
fn distort_repeat_multiplier_unparseable_nonexistent_file_is_breakpoint_open_error() {
    let p = plan(&CommandSpec::distort_repeat(), &["in.wav", "out.wav", "abc"]);
    assert_eq!(
        run_steps(&p, &["in.wav"]),
        Run::Breakpoint("Can't open brkpntfile abc to read data.".to_string())
    );
}

#[test]
fn distort_repeat_multiplier_out_of_range_is_paramno_1() {
    let p = plan(&CommandSpec::distort_repeat(), &["in.wav", "out.wav", "1"]);
    assert!(matches!(
        run_steps(&p, &["in.wav"]),
        Run::ValueOutOfRange { paramno: 1, lo, hi, .. } if lo == 2.0 && hi == 32767.0
    ));
}

#[test]
fn distort_repeat_option_out_of_range_is_paramno_2() {
    let p = plan(&CommandSpec::distort_repeat(), &["in.wav", "out.wav", "3", "-c99999"]);
    assert!(matches!(
        run_steps(&p, &["in.wav"]),
        Run::ValueOutOfRange { paramno: 2, lo, hi, .. } if lo == 1.0 && hi == 32767.0
    ));
}

#[test]
fn distort_repeat_variant_out_of_range_is_paramno_3() {
    let p = plan(&CommandSpec::distort_repeat(), &["in.wav", "out.wav", "3", "-c2", "-s99999"]);
    assert!(matches!(
        run_steps(&p, &["in.wav"]),
        Run::ValueOutOfRange { paramno: 3, lo, hi, .. } if lo == 0.0 && hi == 32767.0
    ));
}

#[test]
fn distort_repeat_variant_unparseable_is_cannot_read_parameter_3() {
    let p = plan(&CommandSpec::distort_repeat(), &["in.wav", "out.wav", "3", "-c2", "-sabc"]);
    assert_eq!(run_steps(&p, &["in.wav"]), Run::CannotReadParameter { legacy_index: 3 });
}

#[test]
fn synth_wave_amp_unparseable_nonexistent_file_is_breakpoint_open_error() {
    let p = plan(&CommandSpec::synth_wave(), &["out.wav", "44100", "1", "1.0", "440", "-aabc"]);
    assert_eq!(
        run_steps(&p, &[]),
        Run::Breakpoint("Can't open brkpntfile abc to read data.".to_string())
    );
}

/// The splice length `sumlen` reads from the words after its input files,
/// 15 ms without `-s`.
fn splice_ms(args: &[&str]) -> Result<f64, Run> {
    match run_steps(&plan(&splice_flag_spec(), args), &[]) {
        Run::Values(v) => Ok(v.iter().find(|(slot, _)| *slot == Slot::Flag('s')).map_or(15.0, |(_, x)| *x)),
        other => Err(other),
    }
}

#[test]
fn no_flag_uses_the_default_splice_length() {
    assert_eq!(splice_ms(&[]).unwrap(), 15.0);
}

#[test]
fn explicit_flag_overrides_the_default() {
    assert_eq!(splice_ms(&["-s0"]).unwrap(), 0.0);
    assert_eq!(splice_ms(&["-s5"]).unwrap(), 5.0);
}

#[test]
fn out_of_range_splice_is_value_out_of_range() {
    assert!(matches!(splice_ms(&["-s2500"]), Err(Run::ValueOutOfRange { paramno: 1, .. })));
}
