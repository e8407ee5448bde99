use step_sequencer::engine::{
    drawScreen, map_pointer, CellView, Direction, Highlight, InputEvent, Player, BOARD_TOP,
};
use step_sequencer::errors::SeqError;
use step_sequencer::{CELLS, LAYERS, PITCHES, STEPS};

#[test]
fn new_player_defaults() {
    let p = Player::new();
    assert_eq!(p.sequence.layer_count(), LAYERS);
    assert_eq!(p.current_layer_index, 0);
    assert_eq!(p.tempo, 200);
    assert_eq!((p.cursor_step, p.cursor_pitch), (3, 5));
    assert!(p.cursor_visible);
    assert_eq!(p.clock.beat, 0);
    assert_eq!(p.clock.msec_in_beat, 0);
    assert!(!p.should_exit);
}

#[test]
fn cursor_movement_clamps_and_never_escapes() {
    let mut p = Player::new();
    let walks = [
        (Direction::Left, 40),
        (Direction::Up, 40),
        (Direction::Right, 40),
        (Direction::Down, 40),
        (Direction::Left, 7),
        (Direction::Up, 3),
    ];
    for &(d, times) in walks.iter() {
        for _ in 0..times {
            p.handle_event(InputEvent::MoveCursor(d));
            assert!(p.cursor_step < STEPS);
            assert!(p.cursor_pitch < PITCHES);
        }
    }
    assert_eq!((p.cursor_step, p.cursor_pitch), (15 - 7, 15 - 3));
    for _ in 0..100 {
        p.handle_event(InputEvent::MoveCursor(Direction::Right));
        p.handle_event(InputEvent::MoveCursor(Direction::Down));
        assert!(p.cursor_step < STEPS);
        assert!(p.cursor_pitch < PITCHES);
    }
    assert_eq!((p.cursor_step, p.cursor_pitch), (15, 15));
}

#[test]
fn toggle_event_flips_the_cursor_cell_only() {
    let mut p = Player::new();
    p.handle_event(InputEvent::ToggleCell);
    for l in 0..LAYERS {
        for step in 0..STEPS {
            for pitch in 0..PITCHES {
                let expect = l == 0 && step == 3 && pitch == 5;
                assert_eq!(p.sequence.layer_at(l).is_active(step, pitch), expect);
            }
        }
    }
    p.handle_event(InputEvent::ToggleCell);
    assert!(!p.sequence.layer_at(0).is_active(3, 5));
}

#[test]
fn pointer_maps_offsets_to_cells() {
    // A press at (5, 3) on a board whose top-left cell is at (1, 1).
    assert_eq!(map_pointer(5, 3, 1, 1), Some((2, 2)));
    // Presses left of or above the board are outside it.
    assert_eq!(map_pointer(0, 3, 1, 1), None);
    assert_eq!(map_pointer(5, 0, 1, 1), None);
    // One past the last step column or pitch row is outside too.
    assert_eq!(map_pointer(1 + 2 * 16, 1, 1, 1), None);
    assert_eq!(map_pointer(1, 1 + 16, 1, 1), None);
    assert_eq!(map_pointer(1 + 2 * 16 - 1, 1 + 16 - 1, 1, 1), Some((15, 15)));
}

#[test]
fn pointer_press_toggles_exactly_the_pressed_cell() {
    let mut p = Player::new();
    // Width 32 centres the board at column 1; the top line is BOARD_TOP.
    p.set_terminal_size(32, 20);
    assert_eq!(p.board_left(), 1);
    assert_eq!(p.board_top(), BOARD_TOP);
    p.handle_event(InputEvent::PointerPress(5, BOARD_TOP + 2));
    assert_eq!((p.cursor_step, p.cursor_pitch), (2, 2));
    for step in 0..STEPS {
        for pitch in 0..PITCHES {
            let expect = step == 2 && pitch == 2;
            assert_eq!(p.sequence.layer_at(0).is_active(step, pitch), expect);
        }
    }
}

#[test]
fn pointer_press_outside_the_board_is_ignored() {
    let mut p = Player::new();
    p.set_terminal_size(32, 20);
    p.handle_event(InputEvent::PointerPress(0, 0));
    p.handle_event(InputEvent::PointerPress(200, 200));
    assert_eq!((p.cursor_step, p.cursor_pitch), (3, 5));
    for step in 0..STEPS {
        for pitch in 0..PITCHES {
            assert!(!p.sequence.layer_at(0).is_active(step, pitch));
        }
    }
}

#[test]
fn board_left_centres_and_clamps() {
    let mut p = Player::new();
    p.set_terminal_size(80, 24);
    assert_eq!(p.board_left(), 80 / 2 - 16 + 1);
    p.set_terminal_size(10, 24);
    assert_eq!(p.board_left(), 1);
}

#[test]
fn update_crossing_reports_the_notes_of_the_new_beat() {
    let mut p = Player::new();
    // Put a note on step 1 (the beat after the first crossing) and one on
    // step 2 in another layer.
    p.sequence.toggle(0, 1, 5);
    p.sequence.toggle(2, 1, 9);
    p.sequence.toggle(1, 2, 0);
    assert_eq!(p.update(300), Some(vec![(0, 5), (2, 9)]));
    assert_eq!(p.clock.beat, 1);
    assert_eq!(p.update(150), None);
    assert_eq!(p.update(150), Some(vec![(1, 0)]));
    assert_eq!(p.clock.beat, 2);
}

#[test]
fn update_without_crossing_changes_nothing_but_the_accumulator() {
    let mut p = Player::new();
    p.sequence.toggle(0, 0, 0);
    let r = p.update(100);
    assert_eq!(r, None);
    assert_eq!(p.clock.beat, 0);
    assert_eq!(p.clock.msec_in_beat, 100);
    assert_eq!((p.cursor_step, p.cursor_pitch), (3, 5));
    assert!(p.sequence.layer_at(0).is_active(0, 0));
}

#[test]
fn exit_event_sets_the_flag() {
    let mut p = Player::new();
    assert!(!p.should_exit);
    p.handle_event(InputEvent::Exit);
    assert!(p.should_exit);
    assert_eq!((p.cursor_step, p.cursor_pitch), (3, 5));
}

#[test]
fn set_tempo_rejects_zero() {
    let mut p = Player::new();
    assert_eq!(p.set_tempo(0), Err(SeqError::InvalidTempo));
    assert_eq!(p.tempo, 200);
    assert_eq!(p.set_tempo(90), Ok(()));
    assert_eq!(p.tempo, 90);
}

#[test]
fn draw_screen_shows_notes_cursor_and_beat() {
    let mut p = Player::new();
    p.handle_event(InputEvent::ToggleCell);
    let cells = drawScreen(&p);
    assert_eq!(cells.len(), CELLS);
    // The cursor cell (step 3, pitch 5) sits at index 5 * 16 + 3.
    assert_eq!(
        cells[5 * 16 + 3],
        CellView { on: true, highlight: Highlight::Cursor }
    );
    // Cells on the current beat's step (step 0) are beat-highlighted.
    assert_eq!(
        cells[0],
        CellView { on: false, highlight: Highlight::Beat }
    );
    assert_eq!(
        cells[16],
        CellView { on: false, highlight: Highlight::Beat }
    );
    // An ordinary cell.
    assert_eq!(
        cells[1],
        CellView { on: false, highlight: Highlight::Plain }
    );
}

#[test]
fn hidden_cursor_is_not_highlighted() {
    let mut p = Player::new();
    p.cursor_visible = false;
    let cells = drawScreen(&p);
    assert_eq!(
        cells[5 * 16 + 3],
        CellView { on: false, highlight: Highlight::Plain }
    );
}
