use moser::audio::MorseAudio;
use moser::timing::TimingProfile;

/// Blocks at wpm 12 == effective 12, 10 Hz: dit/gap1 hold 1 sample, dah/gap3
/// hold 3, gap7 holds 7.
fn tiny_blocks() -> MorseAudio<f32> {
    let p = TimingProfile::new(12, 12).unwrap();
    assert_eq!(p.dit_samples(10), 1);
    assert_eq!(p.dah_samples(10), 3);
    MorseAudio::new(&p, 10, vec![0.9], vec![0.9, 0.9, 0.9], 0.0)
}

#[test]
fn gap_blocks_are_silence_of_the_gap_counts() {
    let au = tiny_blocks();
    assert_eq!(au.gap1, vec![0.0]);
    assert_eq!(au.gap3, vec![0.0, 0.0, 0.0]);
    assert_eq!(au.gap7, vec![0.0; 7]);
    assert_eq!(au.sample_rate, 10);
}

#[test]
fn empty_text_yields_empty_buffer() {
    let au = tiny_blocks();
    let out = au.synthesize(&Vec::new());
    assert!(out.is_empty());
}

#[test]
fn single_a_is_dit_gap_dah_inter_char_gap() {
    // 'A' is dot-dash: dit, intra gap, dah, then the inter-character gap —
    // no trailing intra-character gap remains.
    let au = tiny_blocks();
    let out = au.synthesize(&vec!['A']);
    let expected = vec![0.9, 0.0, 0.9, 0.9, 0.9, 0.0, 0.0, 0.0];
    assert_eq!(out, expected);
}

#[test]
fn space_emits_word_gap_only() {
    let au = tiny_blocks();
    let out = au.synthesize(&vec![' ']);
    assert_eq!(out, vec![0.0; 7]);
}

#[test]
fn unknown_characters_are_skipped_silently() {
    let au = tiny_blocks();
    assert!(au.synthesize(&vec!['%']).is_empty());
    assert!(au.synthesize(&vec!['a']).is_empty());
    // A known character surrounded by unknown ones renders as if alone.
    assert_eq!(au.synthesize(&vec!['%', 'E', '%']), vec![0.9, 0.0, 0.0, 0.0]);
}

#[test]
fn consecutive_characters_are_separated_by_inter_char_gap() {
    // "EE": dit, gap3, dit, gap3.
    let au = tiny_blocks();
    let out = au.synthesize(&vec!['E', 'E']);
    assert_eq!(out, vec![0.9, 0.0, 0.0, 0.0, 0.9, 0.0, 0.0, 0.0]);
}

#[test]
fn morse_to_audio_renders_one_pattern() {
    let au = tiny_blocks();
    // ".-" directly: dit, gap1, dah, gap3.
    let out = au.morse_to_audio(&vec!['.', '-']);
    assert_eq!(out, vec![0.9, 0.0, 0.9, 0.9, 0.9, 0.0, 0.0, 0.0]);
    // The single-space pattern is the word gap.
    assert_eq!(au.morse_to_audio(&vec![' ']), vec![0.0; 7]);
}

#[test]
fn synthesizer_is_generic_in_the_sample_type() {
    // The same block logic over integer samples.
    let p = TimingProfile::new(12, 12).unwrap();
    let au: MorseAudio<i32> = MorseAudio::new(&p, 10, vec![7], vec![7, 7, 7], 0);
    assert_eq!(au.synthesize(&vec!['E']), vec![7, 0, 0, 0]);
}

#[test]
fn buffer_length_follows_the_timing_model() {
    // 'A' at 20/15 wpm, 8 kHz: dit + intra gap + dah + inter-character gap.
    let p = TimingProfile::new(20, 15).unwrap();
    let dit = p.dit_samples(8000) as usize;
    let dah = p.dah_samples(8000) as usize;
    let gap1 = p.intra_gap_samples(8000) as usize;
    let gap3 = p.inter_char_gap_samples(8000) as usize;
    let au: MorseAudio<f32> =
        MorseAudio::new(&p, 8000, vec![0.9; dit], vec![0.9; dah], 0.0);
    let out = au.synthesize(&vec!['A']);
    assert_eq!(out.len(), dit + gap1 + dah + gap3);
    assert_eq!(out.len(), 480 + 480 + 1440 + 1920);
}

#[test]
fn word_boundary_inside_text() {
    // "E E": dit gap3, then gap7, then dit gap3.
    let au = tiny_blocks();
    let out = au.synthesize(&vec!['E', ' ', 'E']);
    let mut expected = vec![0.9, 0.0, 0.0, 0.0];
    expected.extend(vec![0.0; 7]);
    expected.extend(vec![0.9, 0.0, 0.0, 0.0]);
    assert_eq!(out, expected);
}
