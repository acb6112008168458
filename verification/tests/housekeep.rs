use cdp::housekeep::sort::file_type_name;
use cdp::synth::wave::check_duration;
use cdp::housekeep::sort::sort_group_message;
use cdp::housekeep::sort::check_sort_files;
use cdp::error::ExitCategory;
use cdp::housekeep::bakup::{bakup_samples, check_bakup_input, gap_samples, round_up_to_sector};
use cdp::housekeep::bundle::{bundle_selection, check_bundle_names, BundleProps, FloatKey};
use cdp::housekeep::chans::{
    check_chans_format, duplicate_to_stereo, extract_channel_samples, numbered_channel_filename,
    stereo_pairs, zero_one_side, zero_stereo_channel,
};
use cdp::housekeep::remove::{numbered_filename, Outcome, RemoveScan, MAX_DUPLICATES};
use cdp::housekeep::respec::{convert_target, outfile_exists_error, reprop_target};
use cdp::housekeep::sort::{group_by_key, kind_rank_exec, listed_names, sort_group_filename, strip_extension};
use cdp::housekeep::{bundle, chans, copy, extract, respec, sort};
use cdp::sound::{FileKindTag, SampleKind, SoundFormat};

#[test]
fn a_sector_boundary_is_left_alone() {
    assert_eq!(round_up_to_sector(0), 0);
    assert_eq!(round_up_to_sector(256), 256);
    assert_eq!(round_up_to_sector(512), 512);
}

#[test]
fn anything_else_rounds_up() {
    assert_eq!(round_up_to_sector(1), 256);
    assert_eq!(round_up_to_sector(255), 256);
    assert_eq!(round_up_to_sector(257), 512);
    assert_eq!(round_up_to_sector(44174), 44288);
}

#[test]
fn the_gap_is_one_second_rounded_up() {
    assert_eq!(gap_samples(44100, 1), 173 * 256);
    assert_eq!(gap_samples(44100, 2), 345 * 256);
}

#[test]
fn totals_match_three_live_legacy_runs() {
    let per_file = |samples: u64, sr: u32, ch: u16| round_up_to_sector(samples) + gap_samples(sr, ch);
    assert_eq!(per_file(44174, 44100, 1), 88576);
    assert_eq!(2 * per_file(44174, 44100, 1), 177152);
    assert_eq!(per_file(219840, 44100, 2), 308224);
}

#[test]
fn bakup_output_pads_each_input_to_a_sector_then_adds_the_gap() {
    let files = vec![vec![1i32; 3], vec![2i32; 256]];
    let out = bakup_samples(&files, 0, 10);
    assert_eq!(out.len(), 256 + 10 + 256 + 10);
    assert_eq!(&out[0..3], &[1, 1, 1]);
    assert!(out[3..266].iter().all(|&s| s == 0));
    assert!(out[266..522].iter().all(|&s| s == 2));
    assert!(out[522..].iter().all(|&s| s == 0));
}

#[test]
fn bakup_rejects_a_later_input_of_another_format() {
    let e = check_bakup_input(44100, 1, 48000, 1, "b.wav").unwrap_err();
    assert_eq!(e.category, ExitCategory::DataError);
    assert_eq!(e.message, "Incompatible sample-rate in input file b.wav.\n");
    let e = check_bakup_input(44100, 1, 44100, 2, "c.wav").unwrap_err();
    assert_eq!(e.message, "Incompatible channel-count in input file c.wav.\n");
    assert!(check_bakup_input(44100, 2, 44100, 2, "d.wav").is_ok());
}

#[test]
fn bundle_mode_from_number_works() {
    assert_eq!(bundle::Mode::from_number(1), Some(bundle::Mode::All));
    assert_eq!(bundle::Mode::from_number(2), Some(bundle::Mode::NonText));
    assert_eq!(bundle::Mode::from_number(3), Some(bundle::Mode::Type));
    assert_eq!(bundle::Mode::from_number(4), Some(bundle::Mode::SameProperties));
    assert_eq!(bundle::Mode::from_number(5), Some(bundle::Mode::SameChanCount));
    assert_eq!(bundle::Mode::from_number(0), None);
    assert_eq!(bundle::Mode::from_number(6), None);
}

fn wave(rate: u32, channels: u16) -> Option<BundleProps> {
    Some(BundleProps {
        kind: FileKindTag::Wave,
        sample_rate: rate,
        channels,
        orig_sample_rate: None,
        arate: None,
        window_size: None,
    })
}

fn analysis(rate: u32, window: Option<FloatKey>) -> Option<BundleProps> {
    Some(BundleProps {
        kind: FileKindTag::Analysis,
        sample_rate: rate,
        channels: 1026,
        orig_sample_rate: Some(44100),
        arate: Some(344),
        window_size: window,
    })
}

#[test]
fn bundle_modes_select_as_documented() {
    let files = vec![None, wave(44100, 1), analysis(344, None), wave(48000, 1), wave(44100, 2), wave(44100, 1)];
    assert_eq!(bundle_selection(bundle::Mode::All, &files), vec![true; 6]);
    assert_eq!(bundle_selection(bundle::Mode::NonText, &files), vec![false, true, true, true, true, true]);
    assert_eq!(bundle_selection(bundle::Mode::Type, &files), vec![false, true, false, true, true, true]);
    assert_eq!(
        bundle_selection(bundle::Mode::SameProperties, &files),
        vec![false, true, false, false, false, true]
    );
    assert_eq!(
        bundle_selection(bundle::Mode::SameChanCount, &files),
        vec![false, true, false, false, false, true]
    );
}

#[test]
fn bundle_compares_analysis_windows_as_floats_do() {
    let files = vec![
        analysis(344, Some(FloatKey::Value(0x4480_0000))),
        analysis(344, Some(FloatKey::Value(0x4480_0000))),
        analysis(344, Some(FloatKey::Nan)),
        analysis(344, None),
    ];
    assert_eq!(bundle_selection(bundle::Mode::SameProperties, &files), vec![true, true, false, false]);
    let nan_first = vec![analysis(344, Some(FloatKey::Nan)), analysis(344, Some(FloatKey::Nan))];
    assert_eq!(bundle_selection(bundle::Mode::SameProperties, &nan_first), vec![true, false]);
}

#[test]
fn bundle_names_are_checked_before_anything_is_written() {
    let e = check_bundle_names(&vec![], Some("out.txt")).unwrap_err();
    assert_eq!(e.category, ExitCategory::UsageOnly);
    assert_eq!(e.message, "Insufficient input files for this process\n");
    let names = vec!["a.wav".to_string(), "out.txt".to_string()];
    let e = check_bundle_names(&names, None).unwrap_err();
    assert_eq!(e.message, "bundle requires an output text file\n");
    let e = check_bundle_names(&names, Some("out.txt")).unwrap_err();
    assert_eq!(e.category, ExitCategory::DataError);
    assert_eq!(e.message, "Name of out-listfile [out.txt] cannot be included in the listing!!\n");
    assert!(check_bundle_names(&names, Some("list.txt")).is_ok());
}

#[test]
fn numbered_channel_filename_inserts_before_the_extension() {
    assert_eq!(numbered_channel_filename("marimba.wav", 1), "marimba_c1.wav");
    assert_eq!(numbered_channel_filename("/dir/marimba.wav", 2), "/dir/marimba_c2.wav");
    assert_eq!(numbered_channel_filename("noext", 1), "noext_c1");
}

#[test]
fn a_dot_only_in_a_directory_or_at_the_start_is_no_extension() {
    assert_eq!(numbered_channel_filename("a.b/noext", 3), "a.b/noext_c3");
    assert_eq!(numbered_channel_filename(".hidden", 1), ".hidden_c1");
    assert_eq!(numbered_channel_filename("c:x.wav", 12), "c:x_c12.wav");
}

#[test]
fn chans_mode_numbers() {
    assert_eq!(chans::Mode::from_number(1), Some(chans::Mode::ExtractChannel));
    assert_eq!(chans::Mode::from_number(2), None);
    assert_eq!(chans::Mode::from_number(3), Some(chans::Mode::ZeroChannel));
    assert_eq!(chans::Mode::from_number(4), Some(chans::Mode::MixToMono));
    assert_eq!(chans::Mode::from_number(5), Some(chans::Mode::MonoToStereo));
    assert_eq!(chans::Mode::from_number(6), None);
}

fn fmt(kind: FileKindTag, sample: SampleKind, channels: u16) -> SoundFormat {
    SoundFormat { kind, sample, channels, sample_rate: 44100 }
}

#[test]
fn chans_checks_each_modes_channel_rule() {
    let e = check_chans_format(chans::Mode::MixToMono, fmt(FileKindTag::Wave, SampleKind::Short16, 1)).unwrap_err();
    assert_eq!(e.category, ExitCategory::GoalFailed);
    assert_eq!(e.message, "This file is already mono!!\n");
    let e = check_chans_format(chans::Mode::MonoToStereo, fmt(FileKindTag::Wave, SampleKind::Float32, 2)).unwrap_err();
    assert_eq!(e.message, "This file is already stereo!!\n");
    let e = check_chans_format(chans::Mode::MonoToStereo, fmt(FileKindTag::Wave, SampleKind::Float32, 4)).unwrap_err();
    assert_eq!(e.message, "This process does not work with multichannel files!!\n");
    let e = check_chans_format(chans::Mode::ExtractChannel, fmt(FileKindTag::Analysis, SampleKind::Float32, 1)).unwrap_err();
    assert_eq!(e.category, ExitCategory::ProgramError);
    assert_eq!(e.message, "housekeep chans: only sound files are implemented yet");
    let e = check_chans_format(chans::Mode::ZeroChannel, fmt(FileKindTag::Wave, SampleKind::Other, 1)).unwrap_err();
    assert_eq!(e.message, "housekeep chans: this sample format is not implemented yet");
    assert!(check_chans_format(chans::Mode::ZeroChannel, fmt(FileKindTag::Wave, SampleKind::Short16, 2)).is_ok());
}

#[test]
fn channel_sample_movements() {
    let s = vec![1, 2, 3, 4, 5];
    assert_eq!(extract_channel_samples(&s, 2, 0), vec![1, 3, 5]);
    assert_eq!(extract_channel_samples(&s, 2, 1), vec![2, 4]);
    assert_eq!(zero_one_side(&vec![7, 8], 0, true), vec![0, 7, 0, 8]);
    assert_eq!(zero_one_side(&vec![7, 8], 0, false), vec![7, 0, 8, 0]);
    assert_eq!(zero_stereo_channel(&vec![1, 2, 3, 4], 0, 1), vec![1, 0, 3, 0]);
    assert_eq!(duplicate_to_stereo(&vec![1, 2]), vec![1, 1, 2, 2]);
    assert_eq!(stereo_pairs(&s), vec![(1, 2), (3, 4)]);
}

#[test]
fn copy_and_extract_mode_numbers() {
    assert_eq!(copy::Mode::from_number(1), Some(copy::Mode::Once));
    assert_eq!(copy::Mode::from_number(2), None);
    let e = copy::check_copy_format(fmt(FileKindTag::Pitch, SampleKind::Float32, 1)).unwrap_err();
    assert_eq!(e.message, "housekeep copy: only sound files are implemented yet");
}

#[test]
fn mode_4_is_the_only_one_ported() {
    assert_eq!(extract::Mode::from_number(4), Some(extract::Mode::Rectify));
    for other in [1, 2, 3, 5, 6] {
        assert_eq!(extract::Mode::from_number(other), None);
    }
}

#[test]
fn numbers_are_padded_to_three_digits() {
    assert_eq!(numbered_filename("file.wav", 1), "file_001.wav");
    assert_eq!(numbered_filename("file.wav", 9), "file_009.wav");
    assert_eq!(numbered_filename("file.wav", 10), "file_010.wav");
    assert_eq!(numbered_filename("file.wav", 99), "file_099.wav");
    assert_eq!(numbered_filename("file.wav", 100), "file_100.wav");
    assert_eq!(numbered_filename("file.wav", 999), "file_999.wav");
}

#[test]
fn a_directory_component_is_not_mistaken_for_an_extension() {
    assert_eq!(numbered_filename("/path/to/file.wav", 1), "/path/to/file_001.wav");
    assert_eq!(numbered_filename("/a.b/file", 1), "/a.b/file_001");
    assert_eq!(numbered_filename("file", 1), "file_001");
}

fn scan(present: &[u32], all_copies: bool) -> u32 {
    let mut s = RemoveScan::new(all_copies);
    while let Some(n) = s.candidate() {
        let outcome = if present.contains(&n) { Outcome::Removed } else { Outcome::Missing };
        s.record(outcome);
    }
    s.removed()
}

#[test]
fn the_standard_form_counts_total_misses_not_consecutive_ones() {
    let present: Vec<u32> = vec![11];
    assert_eq!(scan(&present, false), 0);
    assert_eq!(scan(&present, true), 1);
}

#[test]
fn a_hit_does_not_give_the_standard_form_a_fresh_allowance() {
    let present: Vec<u32> = vec![10, 20, 30];
    assert_eq!(scan(&present, false), 1, "only the copy at 10 is reached before the tenth miss overall");
    assert_eq!(scan(&present, true), 3, "-a has no stopping rule");
}

#[test]
fn the_all_copies_scan_stops_after_the_last_number() {
    let mut s = RemoveScan::new(true);
    let mut last = 0;
    while let Some(n) = s.candidate() {
        last = n;
        s.record(Outcome::Failed);
    }
    assert_eq!(last, MAX_DUPLICATES);
    assert_eq!(s.removed(), 0);
}

#[test]
fn respec_modes_and_decisions() {
    assert_eq!(respec::Mode::from_number(1), None);
    assert_eq!(respec::Mode::from_number(2), Some(respec::Mode::Convert));
    assert_eq!(respec::Mode::from_number(3), Some(respec::Mode::Reprop));
    assert_eq!(convert_target(fmt(FileKindTag::Wave, SampleKind::Short16, 1)).unwrap(), SampleKind::Float32);
    assert_eq!(convert_target(fmt(FileKindTag::Wave, SampleKind::Float32, 1)).unwrap(), SampleKind::Short16);
    let short = fmt(FileKindTag::Wave, SampleKind::Short16, 1);
    assert_eq!(reprop_target(short, None, None).unwrap(), (1, 44100));
    assert_eq!(reprop_target(short, Some(22050), None).unwrap(), (1, 22050));
    let float = fmt(FileKindTag::Wave, SampleKind::Float32, 1);
    let e = reprop_target(float, None, None).unwrap_err();
    assert_eq!(e.category, ExitCategory::GoalFailed);
    assert_eq!(e.message, "NO CHANGE to input file.\n");
    assert_eq!(reprop_target(float, Some(22050), None).unwrap(), (1, 22050));
}

#[test]
fn reprop_invalid_channel_count_reports_the_confirmed_text() {
    let e = reprop_target(fmt(FileKindTag::Wave, SampleKind::Short16, 1), None, Some(3)).unwrap_err();
    assert_eq!(e.category, ExitCategory::DataError);
    assert_eq!(e.message, "\nInvalid channel count [3]");
}

#[test]
fn reprop_invalid_srate_reports_the_confirmed_text() {
    let e = reprop_target(fmt(FileKindTag::Wave, SampleKind::Short16, 1), Some(44099), None).unwrap_err();
    assert_eq!(e.category, ExitCategory::DataError);
    assert_eq!(e.message, "\nInvalid sample rate [44099]");
}

#[test]
fn respec_existing_outfile_uses_the_system_error_text() {
    let e = outfile_exists_error("x.wav");
    assert_eq!(e.category, ExitCategory::SystemError);
    assert_eq!(e.message, "Unable to open outfile x.wav\n");
}

#[test]
fn strip_extension_works() {
    assert_eq!(strip_extension("file.txt"), "file");
    assert_eq!(strip_extension("/path/to/file.txt"), "/path/to/file");
    assert_eq!(strip_extension("file"), "file");
}

#[test]
fn sort_mode_from_number_works() {
    assert_eq!(sort::Mode::from_number(1), Some(sort::Mode::SampleRate));
    assert_eq!(sort::Mode::from_number(2), Some(sort::Mode::FileType));
    assert_eq!(sort::Mode::from_number(4), Some(sort::Mode::ChannelCount));
    assert_eq!(sort::Mode::from_number(3), None);
    assert_eq!(sort::Mode::from_number(5), None);
}

#[test]
fn groups_come_in_key_order_with_inputs_in_list_order() {
    let keys = vec![Some(48000), None, Some(44100), Some(48000), Some(44100), Some(22050)];
    let groups = group_by_key(&keys);
    assert_eq!(groups, vec![(22050, vec![5]), (44100, vec![2, 4]), (48000, vec![0, 3])]);
    assert!(group_by_key(&vec![None, None]).is_empty());
}

#[test]
fn group_file_names() {
    assert_eq!(sort_group_filename(sort::Mode::SampleRate, "out.txt", 44100), "out_44100_Hz.txt");
    assert_eq!(
        sort_group_filename(sort::Mode::FileType, "out.txt", kind_rank_exec(FileKindTag::Wave)),
        "out_wave.txt"
    );
    assert_eq!(
        sort_group_filename(sort::Mode::FileType, "lists/out", kind_rank_exec(FileKindTag::Analysis)),
        "lists/out_analysis.txt"
    );
    assert_eq!(sort_group_filename(sort::Mode::ChannelCount, "o.txt", 1), "o_mono.txt");
    assert_eq!(sort_group_filename(sort::Mode::ChannelCount, "o.txt", 2), "o_stereo.txt");
    assert_eq!(sort_group_filename(sort::Mode::ChannelCount, "o.txt", 6), "o_6ch.txt");
}

#[test]
fn file_type_groups_follow_the_names_alphabetically() {
    let kinds = [
        FileKindTag::Analysis,
        FileKindTag::Envelope,
        FileKindTag::Formant,
        FileKindTag::Pitch,
        FileKindTag::Transposition,
        FileKindTag::Wave,
    ];
    let ranks: Vec<u64> = kinds.iter().map(|k| kind_rank_exec(*k)).collect();
    assert_eq!(ranks, vec![0, 1, 2, 3, 4, 5]);
}

#[test]
fn list_lines_are_trimmed_and_blank_ones_dropped() {
    let lines = vec![
        "  a.wav ".to_string(),
        "".to_string(),
        "\t\r".to_string(),
        "b c.wav\r".to_string(),
        "\u{3000}d.wav".to_string(),
    ];
    assert_eq!(listed_names(&lines), vec!["a.wav".to_string(), "b c.wav".to_string(), "d.wav".to_string()]);
}

#[test]
fn extracting_a_channel_undoes_doubling_and_one_siding() {
    let m = vec![3, 1, 4, 1, 5];
    let d = duplicate_to_stereo(&m);
    assert_eq!(extract_channel_samples(&d, 2, 0), m);
    assert_eq!(extract_channel_samples(&d, 2, 1), m);
    let z = zero_one_side(&m, 0, true);
    assert_eq!(extract_channel_samples(&z, 2, 1), m);
    assert!(extract_channel_samples(&z, 2, 0).iter().all(|&s| s == 0));
}

#[test]
fn sort_group_messages_name_the_group() {
    assert_eq!(
        sort_group_message(sort::Mode::SampleRate, "out_44100_Hz.txt", 3, 44100),
        "Created out_44100_Hz.txt with 3 files at 44100 Hz"
    );
    assert_eq!(
        sort_group_message(sort::Mode::FileType, "out_wave.txt", 2, kind_rank_exec(FileKindTag::Wave)),
        "Created out_wave.txt with 2 wave files"
    );
    assert_eq!(
        sort_group_message(sort::Mode::ChannelCount, "out_stereo.txt", 1, 2),
        "Created out_stereo.txt with 1 stereo files"
    );
    assert_eq!(
        sort_group_message(sort::Mode::ChannelCount, "out_6ch.txt", 4, 6),
        "Created out_6ch.txt with 4 6ch files"
    );
}

#[test]
fn sort_needs_a_list_and_an_output_name() {
    assert!(check_sort_files(2).is_ok());
    let e = check_sort_files(1).unwrap_err();
    assert_eq!(e.category, ExitCategory::UsageOnly);
    assert_eq!(e.message, "sort requires an input text file and output text file\n");
}

#[test]
fn converting_twice_gives_the_encoding_back() {
    for sample in [SampleKind::Short16, SampleKind::Float32] {
        let f = SoundFormat { kind: FileKindTag::Wave, sample, channels: 2, sample_rate: 44100 };
        let once = convert_target(f).unwrap();
        assert_ne!(once, sample);
        let g = SoundFormat { sample: once, ..f };
        assert_eq!(convert_target(g).unwrap(), sample);
    }
}

#[test]
fn mix_to_mono_rejects_an_already_mono_infile() {
    let marimba = fmt(FileKindTag::Wave, SampleKind::Short16, 1);
    let e = check_chans_format(chans::Mode::MixToMono, marimba).unwrap_err();
    assert_eq!(e.category, ExitCategory::GoalFailed);
    assert_eq!(e.message, "This file is already mono!!\n");
}

#[test]
fn mono_to_stereo_rejects_an_already_stereo_infile() {
    let clashmixtest = fmt(FileKindTag::Wave, SampleKind::Short16, 2);
    let e = check_chans_format(chans::Mode::MonoToStereo, clashmixtest).unwrap_err();
    assert_eq!(e.category, ExitCategory::GoalFailed);
    assert_eq!(e.message, "This file is already stereo!!\n");
}

#[test]
fn chans_analysis_file_is_not_implemented_yet() {
    let capm_ana = SoundFormat { kind: FileKindTag::Analysis, sample: SampleKind::Float32, channels: 1026, sample_rate: 344 };
    let e = check_chans_format(chans::Mode::ExtractChannel, capm_ana).unwrap_err();
    assert!(e.message.contains("implemented yet"));
}

#[test]
fn copy_analysis_file_is_not_implemented_yet() {
    let capm_ana = SoundFormat { kind: FileKindTag::Analysis, sample: SampleKind::Float32, channels: 1026, sample_rate: 344 };
    let e = copy::check_copy_format(capm_ana).unwrap_err();
    assert!(e.message.contains("implemented yet"));
}

#[test]
fn reprop_float_infile_with_no_flags_reports_no_change() {
    let float_wav = fmt(FileKindTag::Wave, SampleKind::Float32, 1);
    let e = reprop_target(float_wav, None, None).unwrap_err();
    assert_eq!(e.category, ExitCategory::GoalFailed);
    assert_eq!(e.message, "NO CHANGE to input file.\n");
}

#[test]
fn file_type_name_works() {
    assert_eq!(file_type_name(FileKindTag::Wave), "wave");
}

#[test]
fn synthesize_rejects_a_duration_shorter_than_the_splice_length() {
    let sampdur = (16000.0f64 * 0.001).round() as i64 * 1;
    let e = check_duration(sampdur, 1).unwrap_err();
    assert_eq!(e.category, ExitCategory::DataError);
    assert_eq!(e.message, "Specified output duration is less then available splicing length.");
    assert!(check_duration(513, 1).is_ok());
    assert!(check_duration(512, 1).is_err());
    assert!(check_duration(1026, 2).is_ok());
}
