use moser::MorseError;
use moser::timing::TimingProfile;

#[test]
fn rejects_zero_speeds() {
    assert_eq!(TimingProfile::new(0, 1), Err(MorseError::InvalidSpeedConfiguration));
    assert_eq!(TimingProfile::new(5, 0), Err(MorseError::InvalidSpeedConfiguration));
}

#[test]
fn rejects_effective_faster_than_character_speed() {
    assert_eq!(TimingProfile::new(5, 6), Err(MorseError::InvalidSpeedConfiguration));
}

#[test]
fn dah_is_three_dits_and_intra_gap_one_dit() {
    let p = TimingProfile::new(20, 15).unwrap();
    assert_eq!(p.dah, 3 * p.dit);
    assert_eq!(p.intra_gap, p.dit);
}

#[test]
fn farnsworth_stretches_only_cross_character_gaps() {
    // wpm 20, effective 15: stretch factor 4/3 applies to the two
    // cross-character gaps only, as an exact rational identity.
    let p = TimingProfile::new(20, 15).unwrap();
    assert_eq!(p.inter_char_gap as u64 * p.effective_wpm as u64, 3 * p.dit * p.wpm as u64);
    assert_eq!(p.inter_word_gap as u64 * p.effective_wpm as u64, 7 * p.dit * p.wpm as u64);
}

#[test]
fn equal_speeds_reduce_to_paris_ratios() {
    let p = TimingProfile::new(12, 12).unwrap();
    assert_eq!(p.inter_char_gap, 3 * p.dit);
    assert_eq!(p.inter_word_gap, 7 * p.dit);
}

#[test]
fn sample_counts_at_20_wpm_8khz() {
    // dit = 1.2/20 s = 0.06 s -> 480 samples at 8 kHz.
    let p = TimingProfile::new(20, 15).unwrap();
    assert_eq!(p.dit_samples(8000), 480);
    assert_eq!(p.dah_samples(8000), 1440);
    assert_eq!(p.intra_gap_samples(8000), 480);
    // inter-character gap = 3.6/15 s = 0.24 s -> 1920 samples.
    assert_eq!(p.inter_char_gap_samples(8000), 1920);
    // inter-word gap = 8.4/15 s = 0.56 s -> 4480 samples.
    assert_eq!(p.inter_word_gap_samples(8000), 4480);
}

#[test]
fn sample_counts_truncate_toward_zero() {
    // wpm 7 at 1000 Hz: dit = 1200/7 ms, exactly 171.428... samples,
    // truncated to 171.
    let p = TimingProfile::new(7, 7).unwrap();
    assert_eq!(p.dit_samples(1000), 171);
    // dah = 3600/7 ms = 514.28... samples, truncated to 514 (not 3 * 171).
    assert_eq!(p.dah_samples(1000), 514);
}
