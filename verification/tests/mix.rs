use cdp::mix::{
    finish_mix_line, is_comment_or_blank_line, is_db_suffixed, mix_field_order, numbered_lines, pan_letter,
    split_words, MixField, MixLineError, MixShape, PanLetter,
};

/// The value of the longest prefix of a word that reads as a number.
fn scan_prefix(word: &str) -> Option<f64> {
    let mut ends: Vec<usize> = word.char_indices().map(|(i, _)| i).skip(1).collect();
    ends.push(word.len());
    ends.into_iter().rev().find_map(|end| word[..end].parse::<f64>().ok())
}

#[derive(Debug, Clone, PartialEq)]
struct Event {
    filename: String,
    time: f64,
    chans: i32,
    left_level: f64,
    left_pan: f64,
    right_level: f64,
    right_pan: f64,
}

#[derive(Debug, PartialEq)]
enum MixErr {
    IllegalMixLineLength,
    CannotScanMixTimeOrChans,
    LevelNotDb { right: bool, line: usize },
    LevelUnparseable { right: bool, line: usize },
    LevelNegative { right: bool, line: usize },
    PanUnparseable { right: bool, line: usize },
    PanOutOfRange { right: bool, line: usize },
    MixChansLineLengthMismatch,
    MinLineChansMustBeMonoOrStereo { line: usize, chans: i32 },
    NoMixData,
}

fn level(word: &str, right: bool, line: usize) -> Result<f64, MixErr> {
    let v = if is_db_suffixed(word) {
        let db = scan_prefix(word).ok_or(MixErr::LevelNotDb { right, line })?.max(-96.0);
        if (db - 0.0).abs() <= 0.000002 {
            1.0
        } else if db < 0.0 {
            1.0 / 10f64.powf(-db / 20.0)
        } else {
            10f64.powf(db / 20.0)
        }
    } else {
        scan_prefix(word).ok_or(MixErr::LevelUnparseable { right, line })?
    };
    if v < 0.0 {
        return Err(MixErr::LevelNegative { right, line });
    }
    Ok(v)
}

fn pan(word: &str, centre: f64, right: bool, line: usize) -> Result<f64, MixErr> {
    match pan_letter(word) {
        Some(PanLetter::Left) => return Ok(-1.0),
        Some(PanLetter::Right) => return Ok(1.0),
        Some(PanLetter::Centre) => return Ok(centre),
        None => {}
    }
    let p = scan_prefix(word).ok_or(MixErr::PanUnparseable { right, line })?;
    if !(-32767.0..=32767.0).contains(&p) {
        return Err(MixErr::PanOutOfRange { right, line });
    }
    Ok(p)
}

/// Reads a mix file through the library's plan, reading the numbers here.
fn parse_mix(text: &str) -> Result<Vec<Event>, MixErr> {
    let lines: Vec<String> = text.lines().map(String::from).collect();
    let mut events = Vec::new();
    for (index, line) in numbered_lines(&lines) {
        let words = split_words(&lines[index]);
        let order = mix_field_order(words.len()).ok_or(MixErr::IllegalMixLineLength)?;
        let mut ev = Event {
            filename: words[0].clone(),
            time: f64::NAN,
            chans: 0,
            left_level: f64::NAN,
            left_pan: f64::NAN,
            right_level: f64::NAN,
            right_pan: f64::NAN,
        };
        for (field, i) in order {
            let w = words[i].as_str();
            match field {
                MixField::Time => ev.time = scan_prefix(w).ok_or(MixErr::CannotScanMixTimeOrChans)?,
                MixField::Chans => {
                    ev.chans = cdp::params::mode::scan_leading_int(w)
                        .and_then(|c| i32::try_from(c).ok())
                        .ok_or(MixErr::CannotScanMixTimeOrChans)?
                }
                MixField::LeftLevel => ev.left_level = level(w, false, line)?,
                MixField::LeftPan => ev.left_pan = pan(w, 0.0, false, line)?,
                MixField::RightLevel => ev.right_level = level(w, true, line)?,
                MixField::RightPan => ev.right_pan = pan(w, 0.5, true, line)?,
            }
        }
        match finish_mix_line(words.len(), ev.chans) {
            Ok(MixShape::MonoCentre) => ev.left_pan = 0.0,
            Ok(MixShape::StereoFromLevel) => {
                ev.right_level = ev.left_level;
                ev.left_pan = -1.0;
                ev.right_pan = 1.0;
            }
            Ok(MixShape::AsRead) => {}
            Err(MixLineError::ChansNotMonoOrStereo(chans)) => {
                return Err(MixErr::MinLineChansMustBeMonoOrStereo { line, chans })
            }
            Err(MixLineError::ChansLineLengthMismatch) => return Err(MixErr::MixChansLineLengthMismatch),
        }
        events.push(ev);
    }
    if events.is_empty() {
        return Err(MixErr::NoMixData);
    }
    Ok(events)
}

#[test]
fn parses_the_real_simplemix_example_file() {
    let text = "capm.wav       0.0   1  0.5   C\n\
                 bfrogcdtg.wav  2.0   1  1.0  -1\n\
                 bfrogcdtg.wav  2.25  1  1.0   1\n\
                 clashmx.wav    6.5   1  1.0  -0.5\n\
                 clashmx.wav    6.7   1  1.0   0.5\n";
    let mix = parse_mix(text).unwrap();
    assert_eq!(mix.len(), 5);
    assert_eq!(mix[0].filename, "capm.wav");
    assert_eq!(mix[0].left_pan, 0.0);
    assert_eq!(mix[1].left_pan, -1.0);
}

#[test]
fn four_word_stereo_line_derives_the_scaling_verified_against_legacy() {
    let ev = &parse_mix("stereo_test.wav 0.0 2 0.5\n").unwrap()[0];
    assert_eq!(ev.left_level, 0.5);
    assert_eq!(ev.right_level, 0.5);
    assert_eq!(ev.left_pan, -1.0);
    assert_eq!(ev.right_pan, 1.0);
}

#[test]
fn four_word_mono_line_leaves_right_fields_as_nan() {
    let ev = &parse_mix("capm.wav 0.0 1 0.5\n").unwrap()[0];
    assert_eq!(ev.left_pan, 0.0);
    assert!(ev.right_level.is_nan());
    assert!(ev.right_pan.is_nan());
}

#[test]
fn seven_word_stereo_line_parses_all_four_level_and_pan_fields() {
    let ev = &parse_mix("name.wav 0.0 2 0.8 -1.0 0.8 -0.5\n").unwrap()[0];
    assert_eq!(ev.left_level, 0.8);
    assert_eq!(ev.left_pan, -1.0);
    assert_eq!(ev.right_level, 0.8);
    assert_eq!(ev.right_pan, -0.5);
}

#[test]
fn db_suffixed_level_converts_to_gain() {
    let gain = parse_mix("name.wav 0.0 1 -6dB C\n").unwrap()[0].left_level;
    assert!((gain - 0.501_187_233_6).abs() < 1e-9);
}

#[test]
fn right_pan_c_means_half_not_centre() {
    let mix = parse_mix("name.wav 0.0 2 0.5 C 0.5 C\n").unwrap();
    assert_eq!(mix[0].left_pan, 0.0);
    assert_eq!(mix[0].right_pan, 0.5);
}

#[test]
fn comment_and_blank_lines_are_ignored_and_do_not_count_towards_line_numbers() {
    let err = parse_mix(";a comment\n\ncapm.wav 0.0 1 0.5 C\n;another\ncapm.wav 1.0 1 xdB C\n").unwrap_err();
    assert_eq!(err, MixErr::LevelNotDb { right: false, line: 2 });
}

#[test]
fn trailing_word_makes_the_line_illegal() {
    assert_eq!(parse_mix("name.wav 0.0 1 0.5 C extra\n").unwrap_err(), MixErr::IllegalMixLineLength);
}

#[test]
fn unscannable_time_is_an_error() {
    assert_eq!(parse_mix("name.wav abc 1 0.5 C\n").unwrap_err(), MixErr::CannotScanMixTimeOrChans);
}

#[test]
fn scientific_notation_time_is_accepted_verified_against_legacy() {
    let mix = parse_mix("capm.wav 1e-1 1 0.5 C\n").unwrap();
    assert!((mix[0].time - 0.1).abs() < 1e-12);
}

#[test]
fn negative_level_is_an_error() {
    assert_eq!(parse_mix("name.wav 0.0 1 -0.5 C\n").unwrap_err(), MixErr::LevelNegative { right: false, line: 1 });
}

#[test]
fn pan_out_of_range_is_an_error() {
    assert_eq!(parse_mix("name.wav 0.0 1 0.5 99999\n").unwrap_err(), MixErr::PanOutOfRange { right: false, line: 1 });
}

#[test]
fn mono_pan_at_maxpan_boundary_is_accepted() {
    assert_eq!(parse_mix("name.wav 0.0 1 0.5 32767\n").unwrap()[0].left_pan, 32767.0);
}

#[test]
fn five_word_line_with_chans_2_is_a_mismatch() {
    assert_eq!(parse_mix("name.wav 0.0 2 0.5 C\n").unwrap_err(), MixErr::MixChansLineLengthMismatch);
}

#[test]
fn seven_word_line_with_chans_1_is_a_mismatch() {
    assert_eq!(parse_mix("name.wav 0.0 1 0.5 C 0.5 C\n").unwrap_err(), MixErr::MixChansLineLengthMismatch);
}

#[test]
fn four_word_line_with_invalid_chans_is_a_deviation_error_not_ub() {
    assert_eq!(
        parse_mix("name.wav 0.0 3 0.5\n").unwrap_err(),
        MixErr::MinLineChansMustBeMonoOrStereo { line: 1, chans: 3 }
    );
}

#[test]
fn empty_file_is_an_error() {
    assert_eq!(parse_mix("").unwrap_err(), MixErr::NoMixData);
    assert_eq!(parse_mix(";only a comment\n").unwrap_err(), MixErr::NoMixData);
}

#[test]
fn words_lines_and_field_order_of_the_plan() {
    assert_eq!(split_words(" a.wav  0.0\t1 "), vec!["a.wav", "0.0", "1"]);
    assert!(split_words(" \t ").is_empty());
    assert!(is_comment_or_blank_line("   ;x"));
    assert!(is_comment_or_blank_line(" \t"));
    assert!(!is_comment_or_blank_line(" a;"));
    let lines: Vec<String> = vec![";c".into(), "a 0 1 1".into(), "".into(), "b 0 1 1".into()];
    assert_eq!(numbered_lines(&lines), vec![(1, 1), (3, 2)]);
    assert_eq!(
        mix_field_order(5).unwrap(),
        vec![(MixField::LeftPan, 4), (MixField::Time, 1), (MixField::Chans, 2), (MixField::LeftLevel, 3)]
    );
    assert_eq!(mix_field_order(7).unwrap()[0], (MixField::RightLevel, 5));
    assert!(mix_field_order(6).is_none());
    assert_eq!(finish_mix_line(4, 2), Ok(MixShape::StereoFromLevel));
    assert_eq!(finish_mix_line(7, 2), Ok(MixShape::AsRead));
    assert!(is_db_suffixed("-6dB") && is_db_suffixed("3db") && is_db_suffixed("3DB"));
    assert!(!is_db_suffixed("3Db") && !is_db_suffixed("B"));
}
