use cdp::sndinfo::report::{date_line, peak_head};
use cdp::sndinfo::report::props_header;
use cdp::sndinfo::report::len_text;
use cdp::sndinfo::report::check_info_kind;
use cdp::sndinfo::check_sumlen_input;
use cdp::sndinfo::trailing_flag_error;
use cdp::sndinfo::{infile_list, timediff_arg_count, INSUFFICIENT_INFILES};
use cdp::error::ExitCategory;
use cdp::sndinfo::ctime::civil_from_days;
use cdp::sndinfo::findhole::largest_hole;
use cdp::sndinfo::lens::lens_line;
use cdp::sndinfo::prntsnd::{prntsnd_rows, prntsnd_span, Row};
use cdp::sndinfo::units::Mode;
use cdp::sndinfo::{check_other_sound_kind, check_sound_kind, looks_like_flag, split_infile_tokens, WRONG_FILETYPE};
use cdp::sound::FileKindTag;

#[test]
fn matches_date_dash_u_for_a_spread_of_real_and_edge_timestamps() {
    let cases: &[(i32, &str)] = &[
        (963_996_604, "Wed Jul 19 08:50:04 2000\n"),
        (1_151_268_522, "Sun Jun 25 20:48:42 2006\n"),
        (1_641_317_196, "Tue Jan  4 17:26:36 2022\n"),
        (0, "Thu Jan  1 00:00:00 1970\n"),
        (86_399, "Thu Jan  1 23:59:59 1970\n"),
        (86_400, "Fri Jan  2 00:00:00 1970\n"),
        (1_000_000_000, "Sun Sep  9 01:46:40 2001\n"),
        (1_700_000_000, "Tue Nov 14 22:13:20 2023\n"),
        (951_782_400, "Tue Feb 29 00:00:00 2000\n"),
        (1_582_934_400, "Sat Feb 29 00:00:00 2020\n"),
    ];
    for &(ts, expected) in cases {
        assert_eq!(cdp::sndinfo::ctime::format(ts), expected, "timestamp {ts}");
    }
}

#[test]
fn dates_before_the_epoch_and_at_the_ends_of_the_range() {
    assert_eq!(cdp::sndinfo::ctime::format(-1), "Wed Dec 31 23:59:59 1969\n");
    assert_eq!(cdp::sndinfo::ctime::format(i32::MIN), "Fri Dec 13 20:45:52 1901\n");
    assert_eq!(cdp::sndinfo::ctime::format(i32::MAX), "Tue Jan 19 03:14:07 2038\n");
}

#[test]
fn day_numbers_map_to_calendar_dates_both_ways() {
    assert_eq!(civil_from_days(0), (1970, 1, 1));
    assert_eq!(civil_from_days(-1), (1969, 12, 31));
    assert_eq!(civil_from_days(59), (1970, 3, 1));
    assert_eq!(civil_from_days(11016), (2000, 2, 29));
    assert_eq!(civil_from_days(-719_468), (0, 3, 1));
}

#[test]
fn split_infile_tokens_stops_at_the_first_flag_shaped_token() {
    let args = ["a.wav", "b.wav", "-x"];
    let (infiles, rest) = split_infile_tokens(&args);
    assert_eq!(infiles, ["a.wav", "b.wav"]);
    assert_eq!(rest, ["-x"]);
}

#[test]
fn split_infile_tokens_takes_everything_when_no_flag_is_present() {
    let args = ["a.wav", "b.wav", "c.wav"];
    let (infiles, rest) = split_infile_tokens(&args);
    assert_eq!(infiles, args);
    assert!(rest.is_empty());
}

#[test]
fn split_infile_tokens_treats_a_bare_dash_as_an_infile_not_a_flag() {
    let args = ["a.wav", "b.wav", "-"];
    let (infiles, rest) = split_infile_tokens(&args);
    assert_eq!(infiles, ["a.wav", "b.wav", "-"]);
    assert!(rest.is_empty());
}

#[test]
fn split_infile_tokens_treats_a_dash_digit_token_as_an_infile_not_a_flag() {
    let args = ["a.wav", "b.wav", "-5"];
    let (infiles, rest) = split_infile_tokens(&args);
    assert_eq!(infiles, ["a.wav", "b.wav", "-5"]);
    assert!(rest.is_empty());
}

#[test]
fn flag_shapes() {
    assert!(looks_like_flag("-s20"));
    assert!(looks_like_flag("-Z"));
    assert!(!looks_like_flag("-"));
    assert!(!looks_like_flag("-5"));
    assert!(!looks_like_flag("-é"));
    assert!(!looks_like_flag("a-b"));
}

fn sample_index(time: f64, sample_rate: f64, chans: usize) -> usize {
    let frame = (time * sample_rate).round() as usize;
    prntsnd_span(frame, usize::MAX / 4, chans, usize::MAX).unwrap().0
}

#[test]
fn a_time_becomes_a_frame_aligned_sample_index() {
    assert_eq!(sample_index(1.0, 44100.0, 1), 44100);
    assert_eq!(sample_index(1.0, 44100.0, 2), 88200);
    assert_eq!(sample_index(0.00001, 44100.0, 2) % 2, 0);
}

#[test]
fn rounding_is_to_nearest_not_truncation() {
    assert_eq!(sample_index(0.0000115, 44100.0, 1), 1);
    assert_eq!(sample_index(0.0000105, 44100.0, 1), 0);
}

#[test]
fn prntsnd_rejects_bad_stretches_and_clips_to_the_file() {
    let e = prntsnd_span(10, 10, 2, 100).unwrap_err();
    assert_eq!(e.category, ExitCategory::DataError);
    assert_eq!(e.message, "Incompatible start and end times.\n");
    let e = prntsnd_span(50, 60, 2, 100).unwrap_err();
    assert_eq!(e.message, "Start time is at end of file: can't proceed.\n");
    assert_eq!(prntsnd_span(10, 60, 2, 100).unwrap(), (20, 100));
}

#[test]
fn prntsnd_lines_are_frames_with_the_samples_that_exist() {
    assert_eq!(
        prntsnd_rows(4, 9, 2, 9),
        vec![
            Row { frame: 2, first: 4, count: 2 },
            Row { frame: 3, first: 6, count: 2 },
            Row { frame: 4, first: 8, count: 1 },
        ]
    );
}

#[test]
fn mode_from_number_covers_only_the_two_implemented_modes() {
    assert_eq!(Mode::from_number(1), Some(Mode::MidiToFrq));
    assert_eq!(Mode::from_number(2), Some(Mode::FrqToMidi));
    for n in [0, 3, 31] {
        assert!(Mode::from_number(n).is_none());
    }
}

fn below(samples: &[f64], threshold: f64) -> Vec<bool> {
    samples.iter().map(|s| s.abs() < threshold).collect()
}

#[test]
fn a_threshold_of_zero_finds_nothing() {
    assert_eq!(largest_hole(&below(&[0.0, 0.0, 0.0], 0.0)), (0, 0));
}

#[test]
fn reports_the_longest_run_and_where_it_starts() {
    let s = [0.9, 0.0, 0.9, 0.0, 0.0, 0.0, 0.9, 0.9];
    assert_eq!(largest_hole(&below(&s, 0.5)), (3, 3));
}

#[test]
fn a_run_reaching_the_end_of_the_file_is_not_counted() {
    let s = [0.9, 0.0, 0.9, 0.0, 0.0, 0.0, 0.0];
    assert_eq!(largest_hole(&below(&s, 0.5)), (1, 1));
}

#[test]
fn the_first_of_two_equal_runs_wins() {
    let s = [0.9, 0.0, 0.0, 0.9, 0.0, 0.0, 0.9];
    assert_eq!(largest_hole(&below(&s, 0.5)), (2, 1));
}

#[test]
fn counts_raw_samples_rather_than_frames() {
    let s = [0.9, 0.9, 0.0, 0.0, 0.9, 0.9];
    assert_eq!(largest_hole(&below(&s, 0.5)), (2, 2));
}

#[test]
fn a_hole_at_the_very_start_counts() {
    assert_eq!(largest_hole(&vec![true, true, false]), (2, 0));
}

#[test]
fn dot_padding_falls_back_to_the_two_dot_minimum_for_a_long_filename() {
    let long_name = "a".repeat(40);
    assert_eq!(lens_line(&long_name, "1.001678 secs "), format!("{long_name}..1.001678 secs \n"));
}

#[test]
fn dot_padding_reaches_the_column() {
    assert_eq!(
        lens_line("sounds/marimba.wav", "1.001678 secs "),
        "sounds/marimba.wav..............1.001678 secs \n"
    );
    assert_eq!(lens_line("é", "x"), format!("é{}x\n", ".".repeat(30)));
}

#[test]
fn input_kinds_are_checked_with_the_documented_texts() {
    assert!(check_sound_kind(FileKindTag::Wave).is_ok());
    let e = check_sound_kind(FileKindTag::Analysis).unwrap_err();
    assert_eq!(e.category, ExitCategory::UsageOnly);
    assert_eq!(e.message, WRONG_FILETYPE);
    let e = check_other_sound_kind(FileKindTag::Envelope, "x.evl").unwrap_err();
    assert_eq!(e.category, ExitCategory::DataError);
    assert_eq!(e.message, "x.evl is not a sound file.");
}

#[test]
fn infile_lists_need_two_files() {
    let e = infile_list(&["a.wav"]).unwrap_err();
    assert_eq!(e.category, ExitCategory::UsageOnly);
    assert_eq!(e.message, "Insufficient parameters on command line.");
    let e = infile_list(&["a.wav", "-s5"]).unwrap_err();
    assert_eq!(e.message, INSUFFICIENT_INFILES);
    let (paths, rest) = infile_list(&["a.wav", "b.wav", "-s5"]).unwrap();
    assert_eq!(paths, ["a.wav", "b.wav"]);
    assert_eq!(rest, ["-s5"]);
    assert!(timediff_arg_count(2).is_ok());
    assert_eq!(timediff_arg_count(1).unwrap_err().message, "Insufficient cmdline parameters.");
    assert_eq!(timediff_arg_count(3).unwrap_err().message, "Too many parameters on command line.");
}

#[test]
fn props_header_gives_the_count_lines_of_each_kind() {
    assert_eq!(
        props_header(FileKindTag::Wave, 44174, 44100, 1).unwrap(),
        "A SOUND file.\nsamples: ............ 44174\nfile type: ........... SOUND\nsample rate: ........ 44100\nchannels: ........... 1\n"
    );
    assert_eq!(
        props_header(FileKindTag::Analysis, 2901528, 344, 1026).unwrap(),
        "An ANALYSIS file.\nsamples: ............ 2901528\nfile type: .......... ANALYSIS DATA\nsample rate: ........ 344\nchannels: ........... 1026\n"
    );
    assert_eq!(
        props_header(FileKindTag::Envelope, 2845, 344, 1).unwrap(),
        "A binary ENVELOPE file.\nsamples: ............ 2845\nfile type: .......... ENVELOPE DATA (binary)\nsample rate: ........ 344\nchannels: ........... 1\n"
    );
    let e = props_header(FileKindTag::Pitch, 1, 1, 1).unwrap_err();
    assert_eq!(e.category, ExitCategory::ProgramError);
    assert_eq!(e.message, "sndinfo props: pitch/transposition/formant files are not implemented yet");
}

#[test]
fn len_text_lays_out_the_duration_report() {
    assert_eq!(
        len_text(FileKindTag::Wave, 44174, 1, "1.001678 secs ").unwrap(),
        "A soundfile\nDURATION: 1.001678 secs samples 44174\n"
    );
    assert_eq!(
        len_text(FileKindTag::Analysis, 2901528, 1026, "8.208254 secs ").unwrap(),
        "An analysis data file\nDURATION: 8.208254 secs windows 2828 : floats 2901528\n"
    );
    assert_eq!(
        len_text(FileKindTag::Envelope, 2845, 1, "8.257596 secs ").unwrap(),
        "A binary envelope file\nDURATION: 8.257596 secs windows 0 : floats 2845\n"
    );
    let e = len_text(FileKindTag::Formant, 1, 1, "").unwrap_err();
    assert_eq!(e.category, ExitCategory::ProgramError);
    assert_eq!(e.message, "sndinfo len: pitch/transposition/formant files are not implemented yet");
}

#[test]
fn info_kind_check_leaves_out_pitch_transposition_and_formant() {
    assert!(check_info_kind("sndinfo maxsamp", FileKindTag::Wave).is_ok());
    assert!(check_info_kind("sndinfo maxsamp", FileKindTag::Envelope).is_ok());
    let e = check_info_kind("sndinfo maxsamp", FileKindTag::Transposition).unwrap_err();
    assert_eq!(e.category, ExitCategory::ProgramError);
    assert_eq!(e.message, "sndinfo maxsamp: pitch/transposition/formant files are not implemented yet");
}

#[test]
fn sumlen_inputs_must_share_rate_and_channels() {
    assert!(check_sumlen_input(44100, 2, 44100, 2, "b.wav").is_ok());
    let e = check_sumlen_input(44100, 2, 48000, 2, "b.wav").unwrap_err();
    assert_eq!(e.category, ExitCategory::DataError);
    assert_eq!(e.message, "Incompatible sample-rate in input file b.wav.");
    let e = check_sumlen_input(44100, 2, 48000, 1, "c.wav").unwrap_err();
    assert_eq!(e.message, "Incompatible sample-rate in input file c.wav.");
    let e = check_sumlen_input(44100, 2, 44100, 1, "c.wav").unwrap_err();
    assert_eq!(e.message, "Incompatible channel-count in input file c.wav.");
}

#[test]
fn a_flag_left_after_the_input_files_is_an_unknown_flag() {
    let args = ["a.wav", "b.wav", "-x", "more"];
    let (paths, rest) = infile_list(&args).unwrap();
    assert_eq!(paths, ["a.wav", "b.wav"]);
    let e = trailing_flag_error(rest).unwrap();
    assert_eq!(e.category, ExitCategory::UsageOnly);
    assert_eq!(e.message, "Unknown flag -x on command line.");
    let args = ["a.wav", "b.wav"];
    let (_, rest) = infile_list(&args).unwrap();
    assert!(trailing_flag_error(rest).is_none());
}

#[test]
fn peak_head_gives_the_sample_type_and_peak_heading() {
    assert_eq!(peak_head("16bit", None), "sample type:  16bit\nNo PEAK chunk in this file");
    assert_eq!(
        peak_head("16bit", Some(1_151_268_522)),
        "sample type:  16bit\nPEAK data at: Sun Jun 25 20:48:42 2006\n\n"
    );
}

#[test]
fn date_line_is_the_ctime_line_and_a_blank_line() {
    assert_eq!(date_line(963_996_604), "Date: Wed Jul 19 08:50:04 2000\n\n");
}
