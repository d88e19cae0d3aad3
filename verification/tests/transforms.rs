use ringverb::delay::{cascade_stage_lengths, check_stage_length, pad_with_silence};
use ringverb::error::AudioError;
use ringverb::random::{draw_percent, draw_stage_percents};
use ringverb::resample::{downsample, downsample_checked};
use ringverb::ring_mod::{ring_mod_output_len, signal_exhausted};

#[test]
fn downsample_factor_two() {
    let signal = vec![1, 2, 3, 4, 5, 6, 7, 8];
    assert_eq!(downsample(8, &signal, 4), vec![1, 3, 5, 7]);
}

#[test]
fn downsample_factor_two_uneven_length() {
    let signal = vec![10, 20, 30, 40, 50];
    assert_eq!(downsample(9, &signal, 4), vec![10, 30, 50]);
}

#[test]
fn downsample_identity_at_equal_rates() {
    let signal = vec![-3, 0, 7];
    assert_eq!(downsample(44_100, &signal, 44_100), vec![-3, 0, 7]);
}

#[test]
fn downsample_empty_when_new_rate_is_zero() {
    let signal = vec![1, 2, 3, 4];
    assert_eq!(downsample(8, &signal, 0), Vec::<i32>::new());
}

#[test]
fn downsample_empty_when_new_rate_exceeds_old() {
    let signal = vec![1, 2, 3, 4];
    assert_eq!(downsample(8, &signal, 9), Vec::<i32>::new());
}

#[test]
fn downsample_empty_input() {
    let signal = Vec::new();
    assert_eq!(downsample(8, &signal, 4), Vec::<i32>::new());
}

#[test]
fn downsample_checked_accepts_valid_request() {
    let signal = vec![1, 2, 3, 4, 5, 6, 7, 8];
    assert_eq!(downsample_checked(8, &signal, 4), Ok(vec![1, 3, 5, 7]));
}

#[test]
fn downsample_checked_rejects_zero_rate() {
    let signal = vec![1, 2, 3];
    assert_eq!(
        downsample_checked(8, &signal, 0),
        Err(AudioError::DegenerateResample)
    );
}

#[test]
fn downsample_checked_rejects_rate_above_source() {
    let signal = vec![1, 2, 3];
    assert_eq!(
        downsample_checked(8, &signal, 16),
        Err(AudioError::DegenerateResample)
    );
}

#[test]
fn pad_with_silence_appends_five_seconds() {
    let signal = vec![5, -6];
    let padded = pad_with_silence(&signal, 2);
    assert_eq!(padded.len(), 2 + 5 * 2);
    assert_eq!(&padded[..2], &[5, -6]);
    assert!(padded[2..].iter().all(|&s| s == 0));
}

#[test]
fn pad_with_silence_empty_input() {
    let signal = Vec::new();
    let padded = pad_with_silence(&signal, 3);
    assert_eq!(padded, vec![0; 15]);
}

#[test]
fn cascade_stage_lengths_divisor_offset_two() {
    let lengths = cascade_stage_lengths(100, 3, 2).unwrap();
    assert_eq!(lengths, vec![50, 33, 25]);
}

#[test]
fn cascade_stage_lengths_divisor_offset_one() {
    let lengths = cascade_stage_lengths(10, 2, 1).unwrap();
    assert_eq!(lengths, vec![10, 5]);
}

#[test]
fn cascade_stage_lengths_zero_stages() {
    let lengths = cascade_stage_lengths(100, 0, 2).unwrap();
    assert_eq!(lengths, Vec::<usize>::new());
}

#[test]
fn cascade_stage_lengths_rejects_zero_length_stage() {
    // The last stage's divisor would be 2 + 3 = 5 > 3, so its buffer length
    // comes out as 0 and the request must be rejected.
    assert_eq!(
        cascade_stage_lengths(3, 4, 2),
        Err(AudioError::InvalidParameter)
    );
}

#[test]
fn check_stage_length_admits_positive_lengths() {
    assert_eq!(check_stage_length(1), Ok(1));
    assert_eq!(check_stage_length(441), Ok(441));
}

#[test]
fn check_stage_length_rejects_zero() {
    assert_eq!(check_stage_length(0), Err(AudioError::InvalidParameter));
}

#[test]
fn draw_stage_percents_zero_stages_draws_nothing() {
    assert_eq!(draw_stage_percents(0), Ok(Vec::new()));
}

#[test]
fn draw_percent_stays_below_one_hundred() {
    for _ in 0..64 {
        let p = draw_percent().unwrap();
        assert!(p < 100);
    }
}

#[test]
fn draw_stage_percents_one_per_stage() {
    let drawn = draw_stage_percents(16).unwrap();
    assert_eq!(drawn.len(), 16);
    assert!(drawn.iter().all(|&p| p < 100));
}

#[test]
fn ring_mod_output_len_caps_at_input_length() {
    assert_eq!(ring_mod_output_len(10, 4), 4);
    assert_eq!(ring_mod_output_len(4, 10), 4);
    assert_eq!(ring_mod_output_len(4, 4), 4);
}

#[test]
fn signal_exhausted_only_when_input_is_short() {
    assert!(signal_exhausted(10, 4));
    assert!(!signal_exhausted(4, 10));
    assert!(!signal_exhausted(4, 4));
}
