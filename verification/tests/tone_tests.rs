use step_sequencer::tone::{semitone_offset, AMPLITUDE_PERCENT, MIXER_CHANNELS};
use step_sequencer::{PITCHES, SAMPLE_RATE};

/// The frequency a semitone offset sounds at, as the audio collaborator
/// computes it: equal temperament around concert A.
fn frequency_for_offset(offset: i32) -> f32 {
    440.0f32 * 1.0595f32.powf(offset as f32)
}

#[test]
fn offset_table_descends_from_top_row() {
    let expected: [i32; 16] = [14, 12, 10, 8, 7, 5, 3, 2, 0, -2, -4, -5, -7, -9, -10, -12];
    for row in 0..PITCHES {
        assert_eq!(semitone_offset(row), expected[row]);
    }
    for row in 1..PITCHES {
        assert!(semitone_offset(row) < semitone_offset(row - 1));
    }
}

#[test]
fn row_eight_sounds_concert_a() {
    assert_eq!(semitone_offset(8), 0);
    let freq = frequency_for_offset(semitone_offset(8));
    assert!((freq - 440.0).abs() < 1e-3);
}

#[test]
fn pitch_row_five_frequency_is_pinned() {
    // Row 5 is five semitones above concert A: 440 * 1.0595^5.
    assert_eq!(semitone_offset(5), 5);
    let freq = frequency_for_offset(semitone_offset(5));
    assert!((freq - 587.45).abs() < 0.1);
}

#[test]
fn two_semitone_row_frequency_is_pinned() {
    // Row 7 sits two semitones above concert A: 440 * 1.0595^2.
    assert_eq!(semitone_offset(7), 2);
    let freq = frequency_for_offset(semitone_offset(7));
    assert!((freq - 493.92).abs() < 0.1);
}

#[test]
fn audio_constants_are_fixed() {
    assert_eq!(SAMPLE_RATE, 48000);
    assert_eq!(AMPLITUDE_PERCENT, 30);
    assert_eq!(MIXER_CHANNELS, 16);
}
