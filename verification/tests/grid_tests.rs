use step_sequencer::errors::SeqError;
use step_sequencer::grid::GridLayer;
use step_sequencer::sequence::Sequence;
use step_sequencer::{PITCHES, STEPS};

#[test]
fn new_grid_is_silent() {
    let g = GridLayer::new();
    for step in 0..STEPS {
        for pitch in 0..PITCHES {
            assert!(!g.is_active(step, pitch));
        }
    }
}

#[test]
fn toggle_turns_one_cell_on() {
    let mut g = GridLayer::new();
    g.toggle(3, 5);
    for step in 0..STEPS {
        for pitch in 0..PITCHES {
            assert_eq!(g.is_active(step, pitch), step == 3 && pitch == 5);
        }
    }
}

#[test]
fn toggle_twice_restores_the_grid() {
    let mut g = GridLayer::new();
    g.toggle(0, 0);
    g.toggle(15, 15);
    let before: Vec<bool> = g.notes.clone();
    g.toggle(7, 9);
    g.toggle(7, 9);
    assert_eq!(g.notes, before);
}

#[test]
fn toggle_checked_rejects_out_of_range_addresses() {
    let mut g = GridLayer::new();
    assert_eq!(g.toggle_checked(16, 0), Err(SeqError::OutOfRangeAddress));
    assert_eq!(g.toggle_checked(0, 16), Err(SeqError::OutOfRangeAddress));
    for step in 0..STEPS {
        for pitch in 0..PITCHES {
            assert!(!g.is_active(step, pitch));
        }
    }
    assert_eq!(g.toggle_checked(2, 2), Ok(()));
    assert!(g.is_active(2, 2));
}

#[test]
fn error_descriptions() {
    assert_eq!(SeqError::InvalidTempo.describe(), "tempo must be positive");
    assert_eq!(
        SeqError::OutOfRangeAddress.describe(),
        "cell address outside the grid"
    );
}

#[test]
fn silent_sequence_has_no_active_notes_at_any_step() {
    let s = Sequence::with_layers(5);
    for step in 0..STEPS {
        assert!(s.active_notes_at(step).is_empty());
    }
}

#[test]
fn active_notes_cover_all_layers_in_order() {
    let mut s = Sequence::with_layers(3);
    s.toggle(2, 4, 9);
    s.toggle(0, 4, 1);
    s.toggle(1, 4, 14);
    s.toggle(0, 4, 12);
    // Pairs come back ordered by layer, then by pitch row.
    assert_eq!(s.active_notes_at(4), vec![(0, 1), (0, 12), (1, 14), (2, 9)]);
    // Other steps are untouched.
    assert!(s.active_notes_at(3).is_empty());
    assert!(s.active_notes_at(5).is_empty());
}

#[test]
fn toggling_one_layer_leaves_the_others_alone() {
    let mut s = Sequence::with_layers(2);
    s.toggle(1, 6, 6);
    assert!(!s.layer_at(0).is_active(6, 6));
    assert!(s.layer_at(1).is_active(6, 6));
    assert_eq!(s.layer_count(), 2);
}
