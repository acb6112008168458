use cdp::pvoc::anal::{original_sampsize_code, resolve_m_n_d, Mode};
use cdp::pvoc::frames::frame_count;
use cdp::sound::SampleKind;
use cdp::synth::wave;

#[test]
fn frame_count_matches_live_legacy_short_file() {
    assert_eq!(frame_count(4410, 512, 128), 43);
}

#[test]
fn frame_count_matches_live_legacy_corpus_file() {
    assert_eq!(frame_count(360_958, 512, 128), 2828);
}

#[test]
fn frame_count_of_an_empty_input() {
    assert_eq!(frame_count(0, 0, 1), 0);
    assert_eq!(frame_count(0, 512, 128), 8);
    assert_eq!(frame_count(1, 0, 128), 1);
}

#[test]
fn resolve_m_n_d_matches_defaults_from_the_usage_text() {
    let (m, n, d) = resolve_m_n_d(None, None);
    assert_eq!((m, n, d), (1024, 1024, 128));
}

#[test]
fn resolve_m_n_d_rounds_an_odd_chans_flag_up_to_even() {
    let (_, n, _) = resolve_m_n_d(Some(511), Some(3));
    assert_eq!(n, 512);
}

#[test]
fn resolve_m_n_d_covers_all_four_overlap_factors() {
    assert_eq!(resolve_m_n_d(Some(1024), Some(1)).0, 4096);
    assert_eq!(resolve_m_n_d(Some(1024), Some(2)).0, 2048);
    assert_eq!(resolve_m_n_d(Some(1024), Some(3)).0, 1024);
    assert_eq!(resolve_m_n_d(Some(1024), Some(4)).0, 512);
}

#[test]
fn resolve_m_n_d_adjusts_a_zero_decimation_to_one() {
    let (_, _, d) = resolve_m_n_d(Some(2), Some(4));
    assert_eq!(d, 1);
}

#[test]
fn analysis_modes_and_sample_codes() {
    assert_eq!(Mode::from_number(1), Some(Mode::Standard));
    assert_eq!(Mode::from_number(2), Some(Mode::EnvelopeOnly));
    assert_eq!(Mode::from_number(3), Some(Mode::MagnitudeOnly));
    assert_eq!(Mode::from_number(4), None);
    assert_eq!(original_sampsize_code(SampleKind::Short16), 0);
    assert_eq!(original_sampsize_code(SampleKind::Float32), 1);
}

#[test]
fn wave_mode_numbers() {
    assert_eq!(wave::Mode::from_number(1), Some(wave::Mode::Sine));
    assert_eq!(wave::Mode::from_number(2), Some(wave::Mode::Square));
    assert_eq!(wave::Mode::from_number(3), Some(wave::Mode::Sawtooth));
    assert_eq!(wave::Mode::from_number(4), Some(wave::Mode::Ramp));
    assert_eq!(wave::Mode::from_number(0), None);
    assert_eq!(wave::Mode::from_number(5), None);
}
