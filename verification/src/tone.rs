//! Pitch-row to note mapping for the sine-wave renderer.
//!
//! Each pitch row maps to a semitone offset from concert A (440 Hz); the
//! audio collaborator turns an offset `n` into the equal-tempered frequency
//! `440 * 1.0595^n` and synthesizes one sine tone per active note, one beat
//! long, scaled by `AMPLITUDE_PERCENT` so that summed notes do not clip.
//! Row 0 is drawn at the top and sounds the highest note; each following
//! row sounds lower. The same table drives both rendering and audio, so a
//! row always sounds the note it is drawn as.

use crate::PITCHES;
use vstd::prelude::*;

verus! {

/// Amplitude of each synthesized tone, in percent of full scale.
pub const AMPLITUDE_PERCENT: u32 = 30;

/// Channel count handed to the audio mixer.
pub const MIXER_CHANNELS: u16 = 16;

/// Semitone offset from 440 Hz for each pitch row, top row first: a scale
/// descending from +14 semitones at row 0 to -12 semitones at row 15.
pub open spec fn spec_semitone_offset(row: int) -> int {
    if row == 0 {
        14
    } else if row == 1 {
        12
    } else if row == 2 {
        10
    } else if row == 3 {
        8
    } else if row == 4 {
        7
    } else if row == 5 {
        5
    } else if row == 6 {
        3
    } else if row == 7 {
        2
    } else if row == 8 {
        0
    } else if row == 9 {
        -2
    } else if row == 10 {
        -4
    } else if row == 11 {
        -5
    } else if row == 12 {
        -7
    } else if row == 13 {
        -9
    } else if row == 14 {
        -10
    } else {
        -12
    }
}

/// Higher rows sound lower: the offset table is strictly decreasing, so no
/// two rows sound the same note.
pub proof fn lemma_offset_strictly_decreasing(r1: int, r2: int)
    requires
        0 <= r1 < r2 < PITCHES,
    ensures
        spec_semitone_offset(r1) > spec_semitone_offset(r2),
{
}

/// The semitone offset for a pitch row, per `spec_semitone_offset`.
pub fn semitone_offset(row: usize) -> (offset: i32)
    requires
        row < PITCHES,
    ensures
        offset == spec_semitone_offset(row as int),
{
    if row == 0 {
        14
    } else if row == 1 {
        12
    } else if row == 2 {
        10
    } else if row == 3 {
        8
    } else if row == 4 {
        7
    } else if row == 5 {
        5
    } else if row == 6 {
        3
    } else if row == 7 {
        2
    } else if row == 8 {
        0
    } else if row == 9 {
        -2
    } else if row == 10 {
        -4
    } else if row == 11 {
        -5
    } else if row == 12 {
        -7
    } else if row == 13 {
        -9
    } else if row == 14 {
        -10
    } else {
        -12
    }
}

} // verus!
