//! The playback engine: owns the layers, the beat clock, the editing
//! cursor and the exit flag, and is driven once per frame by an external
//! event loop. Input arrives as plain events already decoded from the
//! terminal; on each beat-boundary crossing the engine reports the notes
//! that must sound, and the audio collaborator synthesizes them.

use crate::clock::spec_advance;
use crate::clock::BeatClock;
use crate::errors::SeqError;
use crate::grid::spec_toggle;
use crate::grid::GridLayer;
use crate::sequence::spec_active_pairs;
use crate::sequence::Sequence;
use crate::CELLS;
use crate::LAYERS;
use crate::PITCHES;
use crate::STEPS;
use vstd::prelude::*;

verus! {

/// Tempo a new player starts with, in beats per minute.
pub const DEFAULT_TEMPO: u32 = 200;

/// Step the editing cursor starts on.
pub const DEFAULT_CURSOR_STEP: usize = 3;

/// Pitch row the editing cursor starts on.
pub const DEFAULT_CURSOR_PITCH: usize = 5;

/// Screen row of the top board line.
pub const BOARD_TOP: u16 = 2;

/// A direction the editing cursor can move in.
#[derive(Clone, Copy, Debug, PartialEq, Eq, Structural)]
pub enum Direction {
    /// Towards lower pitch rows (up the screen).
    Up,
    /// Towards higher pitch rows (down the screen).
    Down,
    /// Towards lower steps.
    Left,
    /// Towards higher steps.
    Right,
}

/// A decoded input event, as the terminal collaborator hands it over.
/// Events the collaborator does not recognize never reach the engine.
#[derive(Clone, Copy, Debug, PartialEq, Eq, Structural)]
pub enum InputEvent {
    /// Move the editing cursor one cell, clamped to the board.
    MoveCursor(Direction),
    /// Toggle the cell under the editing cursor.
    ToggleCell,
    /// A pointer press at screen coordinates `(x, y)`.
    PointerPress(u16, u16),
    /// Request termination of the frame loop.
    Exit,
}

/// How one cell of the board is highlighted when drawn.
#[derive(Clone, Copy, Debug, PartialEq, Eq, Structural)]
pub enum Highlight {
    /// The cell under the editing cursor.
    Cursor,
    /// A cell on the current beat's step.
    Beat,
    /// Any other cell.
    Plain,
}

/// What one cell of the board looks like: whether its note is active and
/// how it is highlighted.
#[derive(Clone, Copy, Debug, PartialEq, Eq, Structural)]
pub struct CellView {
    /// Whether the note at this cell is active.
    pub on: bool,
    /// The cell's highlight.
    pub highlight: Highlight,
}

/// The sequencer's orchestration point, driven once per frame.
pub struct Player {
    /// The layers of notes.
    pub sequence: Sequence,
    /// The layer the cursor edits; playback always sounds all layers.
    pub current_layer_index: usize,
    /// Playback speed, in beats per minute; always positive.
    pub tempo: u32,
    /// Cursor step, in `[0, STEPS)`.
    pub cursor_step: usize,
    /// Cursor pitch row, in `[0, PITCHES)`.
    pub cursor_pitch: usize,
    /// Whether the cursor cell is highlighted when drawn.
    pub cursor_visible: bool,
    /// The beat clock.
    pub clock: BeatClock,
    /// Set when the user asked to exit; the frame loop observes it.
    pub should_exit: bool,
    /// Last observed terminal width, in character cells.
    pub term_width: u16,
    /// Last observed terminal height, in character cells.
    pub term_height: u16,
}

/// Column of the leftmost board cell for a terminal `w` columns wide: the
/// board is centred, and clamped to column 1 on terminals too narrow to
/// centre it (where unsigned arithmetic would otherwise wrap).
pub open spec fn spec_board_left(w: int) -> int {
    if w / 2 >= STEPS {
        w / 2 - STEPS + 1
    } else {
        1
    }
}

/// Where a pointer press at screen coordinates `(x, y)` lands on a board
/// whose top-left cell sits at `(left, top)`: each step is drawn two
/// characters wide, each pitch row one line tall. `None` when the press
/// falls outside the board.
pub open spec fn spec_map_pointer(x: int, y: int, left: int, top: int) -> Option<(int, int)> {
    if x >= left && y >= top && (x - left) / 2 < STEPS && y - top < PITCHES {
        Some(((x - left) / 2, y - top))
    } else {
        None
    }
}

/// The cursor after one clamped move from `(step, pitch)`: a move at the
/// board's edge stays put, so the cursor never wraps round.
pub open spec fn spec_cursor_after_move(step: int, pitch: int, d: Direction) -> (int, int) {
    match d {
        Direction::Left => (if step > 0 {
            step - 1
        } else {
            step
        }, pitch),
        Direction::Right => (if step < STEPS - 1 {
            step + 1
        } else {
            step
        }, pitch),
        Direction::Up => (step, if pitch > 0 {
            pitch - 1
        } else {
            pitch
        }),
        Direction::Down => (step, if pitch < PITCHES - 1 {
            pitch + 1
        } else {
            pitch
        }),
    }
}

/// The cursor after a whole sequence of clamped moves.
pub open spec fn spec_cursor_after_moves(step: int, pitch: int, ds: Seq<Direction>) -> (int, int)
    decreases ds.len(),
{
    if ds.len() == 0 {
        (step, pitch)
    } else {
        let (s1, p1) = spec_cursor_after_move(step, pitch, ds[0]);
        spec_cursor_after_moves(s1, p1, ds.drop_first())
    }
}

/// The fields of a player that neither editing, cursor movement, clock
/// ticks nor exit requests may invent values for, compared pairwise.
pub open spec fn eq_core(a: Player, b: Player) -> bool {
    &&& b.current_layer_index == a.current_layer_index
    &&& b.tempo == a.tempo
    &&& b.cursor_visible == a.cursor_visible
    &&& b.term_width == a.term_width
    &&& b.term_height == a.term_height
}

/// Layer stack `b` is layer stack `a` with exactly the cell
/// `(step, pitch)` of layer `l` flipped.
pub open spec fn spec_layers_toggled(
    a: Seq<GridLayer>,
    b: Seq<GridLayer>,
    l: int,
    step: int,
    pitch: int,
) -> bool {
    &&& b.len() == a.len()
    &&& b[l].notes@ == spec_toggle(a[l].notes@, step, pitch)
    &&& forall|j: int| 0 <= j < a.len() && j != l ==> b[j] == a[j]
}

impl Player {
    /// Everything the engine relies on: the layers are full grids, the
    /// editing layer exists, the tempo is positive, and the cursor and the
    /// beat stay on the board.
    pub open spec fn wf(self) -> bool {
        &&& self.sequence.wf()
        &&& self.current_layer_index < self.sequence.layers@.len()
        &&& self.tempo >= 1
        &&& self.cursor_step < STEPS
        &&& self.cursor_pitch < PITCHES
        &&& self.clock.wf()
    }

    /// A new player: `LAYERS` silent layers, the default tempo and cursor,
    /// a visible cursor, the clock at the top of beat zero, no exit
    /// request, and no terminal size observed yet.
    pub fn new() -> (p: Player)
        ensures
            p.wf(),
            p.sequence.layers@.len() == LAYERS,
            p.sequence.all_silent(),
            p.current_layer_index == 0,
            p.tempo == DEFAULT_TEMPO,
            p.cursor_step == DEFAULT_CURSOR_STEP,
            p.cursor_pitch == DEFAULT_CURSOR_PITCH,
            p.cursor_visible,
            p.clock.beat == 0,
            p.clock.msec_in_beat == 0,
            !p.should_exit,
            p.term_width == 0,
            p.term_height == 0,
    {
        Player {
            sequence: Sequence::with_layers(LAYERS),
            current_layer_index: 0,
            tempo: DEFAULT_TEMPO,
            cursor_step: DEFAULT_CURSOR_STEP,
            cursor_pitch: DEFAULT_CURSOR_PITCH,
            cursor_visible: true,
            clock: BeatClock::new(),
            should_exit: false,
            term_width: 0,
            term_height: 0,
        }
    }

    /// Column of the leftmost board cell, from the last observed width.
    pub fn board_left(&self) -> (c: u16)
        ensures
            c == spec_board_left(self.term_width as int),
    {
        let half = self.term_width / 2;
        if half >= STEPS as u16 {
            half - (STEPS as u16) + 1
        } else {
            1
        }
    }

    /// Screen row of the top board line.
    pub fn board_top(&self) -> (r: u16)
        ensures
            r == BOARD_TOP,
    {
        BOARD_TOP
    }

    /// Records the terminal size the renderer observed; nothing else
    /// changes.
    pub fn set_terminal_size(&mut self, w: u16, h: u16)
        requires
            old(self).wf(),
        ensures
            final(self).wf(),
            final(self).term_width == w,
            final(self).term_height == h,
            final(self).sequence == old(self).sequence,
            final(self).current_layer_index == old(self).current_layer_index,
            final(self).tempo == old(self).tempo,
            final(self).cursor_step == old(self).cursor_step,
            final(self).cursor_pitch == old(self).cursor_pitch,
            final(self).cursor_visible == old(self).cursor_visible,
            final(self).clock == old(self).clock,
            final(self).should_exit == old(self).should_exit,
    {
        self.term_width = w;
        self.term_height = h;
    }

    /// Replaces the tempo; a tempo of zero is rejected with `InvalidTempo`
    /// and nothing changes.
    pub fn set_tempo(&mut self, tempo: u32) -> (r: Result<(), SeqError>)
        requires
            old(self).wf(),
        ensures
            final(self).wf(),
            tempo >= 1 ==> r is Ok && *final(self) == (Player { tempo, ..*old(self) }),
            tempo == 0 ==> r == Result::<(), SeqError>::Err(SeqError::InvalidTempo) && *final(self)
                == *old(self),
    {
        match crate::clock::validate_tempo(tempo) {
            Ok(t) => {
                self.tempo = t;
                Ok(())
            },
            Err(e) => Err(e),
        }
    }

    /// Moves the editing cursor one cell, clamped to the board; the rest
    /// of the player is untouched. Editing never disturbs playback.
    pub fn move_cursor(&mut self, d: Direction)
        requires
            old(self).wf(),
        ensures
            final(self).wf(),
            eq_core(*old(self), *final(self)),
            final(self).sequence == old(self).sequence,
            final(self).clock == old(self).clock,
            final(self).should_exit == old(self).should_exit,
            (final(self).cursor_step as int, final(self).cursor_pitch as int)
                == spec_cursor_after_move(
                old(self).cursor_step as int,
                old(self).cursor_pitch as int,
                d,
            ),
    {
        match d {
            Direction::Left => {
                if self.cursor_step > 0 {
                    self.cursor_step = self.cursor_step - 1;
                }
            },
            Direction::Right => {
                if self.cursor_step < STEPS - 1 {
                    self.cursor_step = self.cursor_step + 1;
                }
            },
            Direction::Up => {
                if self.cursor_pitch > 0 {
                    self.cursor_pitch = self.cursor_pitch - 1;
                }
            },
            Direction::Down => {
                if self.cursor_pitch < PITCHES - 1 {
                    self.cursor_pitch = self.cursor_pitch + 1;
                }
            },
        }
    }

    /// Toggles the cell under the editing cursor on the editing layer;
    /// every other cell, every other layer and the rest of the player are
    /// untouched.
    pub fn toggle_note(&mut self)
        requires
            old(self).wf(),
        ensures
            final(self).wf(),
            eq_core(*old(self), *final(self)),
            final(self).cursor_step == old(self).cursor_step,
            final(self).cursor_pitch == old(self).cursor_pitch,
            final(self).clock == old(self).clock,
            final(self).should_exit == old(self).should_exit,
            spec_layers_toggled(
                old(self).sequence.layers@,
                final(self).sequence.layers@,
                old(self).current_layer_index as int,
                old(self).cursor_step as int,
                old(self).cursor_pitch as int,
            ),
    {
        let layer = self.current_layer_index;
        let step = self.cursor_step;
        let pitch = self.cursor_pitch;
        self.sequence.toggle(layer, step, pitch);
    }

    /// Sets the exit flag the external frame loop observes; the engine
    /// itself tears nothing down.
    pub fn request_exit(&mut self)
        requires
            old(self).wf(),
        ensures
            final(self).wf(),
            *final(self) == (Player { should_exit: true, ..*old(self) }),
    {
        self.should_exit = true;
    }

    /// Dispatches one decoded input event:
    /// - cursor moves are clamped to the board;
    /// - a toggle flips the cell under the cursor on the editing layer;
    /// - a pointer press inside the board moves the cursor to the pressed
    ///   cell and toggles exactly that cell, and one outside it is
    ///   ignored;
    /// - an exit request sets the exit flag.
    pub fn handle_event(&mut self, event: InputEvent)
        requires
            old(self).wf(),
        ensures
            final(self).wf(),
            match event {
                InputEvent::MoveCursor(d) => {
                    &&& eq_core(*old(self), *final(self))
                    &&& final(self).sequence == old(self).sequence
                    &&& final(self).clock == old(self).clock
                    &&& final(self).should_exit == old(self).should_exit
                    &&& (final(self).cursor_step as int, final(self).cursor_pitch as int)
                        == spec_cursor_after_move(
                        old(self).cursor_step as int,
                        old(self).cursor_pitch as int,
                        d,
                    )
                },
                InputEvent::ToggleCell => {
                    &&& eq_core(*old(self), *final(self))
                    &&& final(self).cursor_step == old(self).cursor_step
                    &&& final(self).cursor_pitch == old(self).cursor_pitch
                    &&& final(self).clock == old(self).clock
                    &&& final(self).should_exit == old(self).should_exit
                    &&& spec_layers_toggled(
                        old(self).sequence.layers@,
                        final(self).sequence.layers@,
                        old(self).current_layer_index as int,
                        old(self).cursor_step as int,
                        old(self).cursor_pitch as int,
                    )
                },
                InputEvent::PointerPress(x, y) => (match spec_map_pointer(
                    x as int,
                    y as int,
                    spec_board_left(old(self).term_width as int),
                    BOARD_TOP as int,
                ) {
                    Some(cell) => {
                        &&& eq_core(*old(self), *final(self))
                        &&& final(self).clock == old(self).clock
                        &&& final(self).should_exit == old(self).should_exit
                        &&& final(self).cursor_step == cell.0
                        &&& final(self).cursor_pitch == cell.1
                        &&& spec_layers_toggled(
                            old(self).sequence.layers@,
                            final(self).sequence.layers@,
                            old(self).current_layer_index as int,
                            cell.0,
                            cell.1,
                        )
                    },
                    None => *final(self) == *old(self),
                }),
                InputEvent::Exit => *final(self) == (Player { should_exit: true, ..*old(self) }),
            },
    {
        match event {
            InputEvent::MoveCursor(d) => self.move_cursor(d),
            InputEvent::ToggleCell => self.toggle_note(),
            InputEvent::PointerPress(x, y) => {
                let left = self.board_left();
                if x >= left && y >= BOARD_TOP {
                    let step_u16 = (x - left) / 2;
                    let pitch_u16 = y - BOARD_TOP;
                    if step_u16 < STEPS as u16 && pitch_u16 < PITCHES as u16 {
                        self.cursor_step = step_u16 as usize;
                        self.cursor_pitch = pitch_u16 as usize;
                        self.toggle_note();
                    }
                }
            },
            InputEvent::Exit => self.request_exit(),
        }
    }

    /// Accumulates `dt` elapsed milliseconds on the beat clock. When no
    /// beat boundary is crossed this is a no-op returning `None`; on a
    /// crossing it returns every `(layer, pitch)` pair active on the new
    /// beat across all layers — what the audio collaborator must sound.
    pub fn update(&mut self, dt: u32) -> (played: Option<Vec<(usize, usize)>>)
        requires
            old(self).wf(),
            old(self).clock.msec_in_beat + dt <= u32::MAX,
        ensures
            final(self).wf(),
            eq_core(*old(self), *final(self)),
            final(self).sequence == old(self).sequence,
            final(self).cursor_step == old(self).cursor_step,
            final(self).cursor_pitch == old(self).cursor_pitch,
            final(self).should_exit == old(self).should_exit,
            (
                final(self).clock.beat as nat,
                final(self).clock.msec_in_beat as nat,
                played is Some,
            ) == spec_advance(
                old(self).clock.beat as nat,
                old(self).clock.msec_in_beat as nat,
                dt as nat,
                old(self).tempo as nat,
            ),
            played matches Some(notes) ==> notes@ == spec_active_pairs(
                old(self).sequence.layers@,
                final(self).clock.beat as int,
            ),
    {
        let tempo = self.tempo;
        match self.clock.advance(dt, tempo) {
            Some(beat) => Some(self.sequence.active_notes_at(beat)),
            None => None,
        }
    }
}

/// Where a pointer press lands, per `spec_map_pointer`, as plain values.
pub fn map_pointer(x: u16, y: u16, left: u16, top: u16) -> (r: Option<(usize, usize)>)
    ensures
        r matches Some(cell) ==> Some((cell.0 as int, cell.1 as int)) == spec_map_pointer(
            x as int,
            y as int,
            left as int,
            top as int,
        ),
        r is None ==> spec_map_pointer(x as int, y as int, left as int, top as int) is None,
{
    if x >= left && y >= top {
        let step = (x - left) / 2;
        let pitch = y - top;
        if step < STEPS as u16 && pitch < PITCHES as u16 {
            Some((step as usize, pitch as usize))
        } else {
            None
        }
    } else {
        None
    }
}

/// The board cells of the editing layer as they must be drawn, row-major:
/// the note flag at each cell, the cursor cell highlighted while the
/// cursor is visible, and otherwise the cells of the current beat's step
/// highlighted.
#[allow(non_snake_case)]
pub fn drawScreen(p: &Player) -> (cells: Vec<CellView>)
    requires
        p.wf(),
    ensures
        cells@.len() == CELLS,
        forall|n: int|
            0 <= n < CELLS ==> cells@[n] == (CellView {
                on: p.sequence.layers@[p.current_layer_index as int].note_at(
                    n % (STEPS as int),
                    n / (STEPS as int),
                ),
                highlight: (if p.cursor_visible && n % (STEPS as int) == p.cursor_step && n / (
                STEPS as int) == p.cursor_pitch {
                    Highlight::Cursor
                } else if n % (STEPS as int) == p.clock.beat {
                    Highlight::Beat
                } else {
                    Highlight::Plain
                }),
            }),
{
    let layer = p.sequence.layer_at(p.current_layer_index);
    proof {
        assert(p.sequence.layers@[p.current_layer_index as int].wf());
    }
    let mut cells: Vec<CellView> = Vec::new();
    let mut n: usize = 0;
    while n < CELLS
        invariant
            p.wf(),
            layer.wf(),
            *layer == p.sequence.layers@[p.current_layer_index as int],
            n <= CELLS,
            cells@.len() == n,
            forall|m: int|
                0 <= m < n ==> cells@[m] == (CellView {
                    on: p.sequence.layers@[p.current_layer_index as int].note_at(
                        m % (STEPS as int),
                        m / (STEPS as int),
                    ),
                    highlight: (if p.cursor_visible && m % (STEPS as int) == p.cursor_step && m / (
                    STEPS as int) == p.cursor_pitch {
                        Highlight::Cursor
                    } else if m % (STEPS as int) == p.clock.beat {
                        Highlight::Beat
                    } else {
                        Highlight::Plain
                    }),
                }),
        decreases CELLS - n,
    {
        let step = n % STEPS;
        let pitch = n / STEPS;
        let on = layer.is_active(step, pitch);
        let highlight = if p.cursor_visible && step == p.cursor_step && pitch == p.cursor_pitch {
            Highlight::Cursor
        } else if step == p.clock.beat {
            Highlight::Beat
        } else {
            Highlight::Plain
        };
        cells.push(CellView { on, highlight });
        n = n + 1;
    }
    cells
}

/// However many moves are made and in whatever directions, a cursor that
/// starts on the board stays on the board: clamped movement never escapes
/// `[0, STEPS) x [0, PITCHES)`.
pub proof fn lemma_cursor_never_escapes(step: int, pitch: int, ds: Seq<Direction>)
    requires
        0 <= step < STEPS,
        0 <= pitch < PITCHES,
    ensures
        ({
            let (s2, p2) = spec_cursor_after_moves(step, pitch, ds);
            0 <= s2 < STEPS && 0 <= p2 < PITCHES
        }),
    decreases ds.len(),
{
    if ds.len() > 0 {
        let (s1, p1) = spec_cursor_after_move(step, pitch, ds[0]);
        lemma_cursor_never_escapes(s1, p1, ds.drop_first());
    }
}

} // verus!
