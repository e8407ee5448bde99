//! One layer of the sequencer: a fixed `STEPS x PITCHES` matrix of boolean
//! note-active flags, stored row-major (cell `(step, pitch)` lives at index
//! `pitch * STEPS + step`). Dimensions are fixed at creation.

use crate::errors::SeqError;
use crate::CELLS;
use crate::PITCHES;
use crate::STEPS;
use vstd::prelude::*;

verus! {

/// A grid of note flags for one layer.
pub struct GridLayer {
    /// The flags, row-major; always exactly `CELLS` of them.
    pub notes: Vec<bool>,
}

/// The flag sequence with the cell at `(step, pitch)` flipped.
pub open spec fn spec_toggle(notes: Seq<bool>, step: int, pitch: int) -> Seq<bool> {
    notes.update(pitch * STEPS + step, !notes[pitch * STEPS + step])
}

impl GridLayer {
    /// A grid is well formed when it holds exactly one flag per cell.
    pub open spec fn wf(self) -> bool {
        self.notes@.len() == CELLS
    }

    /// The flag at `(step, pitch)`, as contracts speak of it.
    pub open spec fn note_at(self, step: int, pitch: int) -> bool {
        self.notes@[pitch * STEPS + step]
    }

    /// Whether every cell of the grid is inactive.
    pub open spec fn all_silent(self) -> bool {
        forall|i: int| 0 <= i < self.notes@.len() ==> !self.notes@[i]
    }

    /// A new grid with every cell inactive.
    pub fn new() -> (g: GridLayer)
        ensures
            g.wf(),
            g.all_silent(),
    {
        let mut notes: Vec<bool> = Vec::new();
        let mut i: usize = 0;
        while i < CELLS
            invariant
                i <= CELLS,
                notes@.len() == i,
                forall|j: int| 0 <= j < i ==> !notes@[j],
            decreases CELLS - i,
        {
            notes.push(false);
            i = i + 1;
        }
        GridLayer { notes }
    }

    /// Pure read of the flag at `(step, pitch)`.
    pub fn is_active(&self, step: usize, pitch: usize) -> (r: bool)
        requires
            self.wf(),
            step < STEPS,
            pitch < PITCHES,
        ensures
            r == self.note_at(step as int, pitch as int),
    {
        self.notes[pitch * STEPS + step]
    }

    /// Flips the flag at `(step, pitch)`. Callers clamp addresses to the
    /// grid bounds before calling.
    pub fn toggle(&mut self, step: usize, pitch: usize)
        requires
            old(self).wf(),
            step < STEPS,
            pitch < PITCHES,
        ensures
            final(self).wf(),
            final(self).notes@ == spec_toggle(old(self).notes@, step as int, pitch as int),
    {
        let n = pitch * STEPS + step;
        let cur = self.notes[n];
        self.notes.set(n, !cur);
    }

    /// Flips the flag at `(step, pitch)` if the address is inside the grid,
    /// and reports an out-of-range address otherwise, leaving the grid
    /// unchanged.
    pub fn toggle_checked(&mut self, step: usize, pitch: usize) -> (r: Result<(), SeqError>)
        requires
            old(self).wf(),
        ensures
            final(self).wf(),
            step < STEPS && pitch < PITCHES ==> r is Ok && final(self).notes@ == spec_toggle(
                old(self).notes@,
                step as int,
                pitch as int,
            ),
            !(step < STEPS && pitch < PITCHES) ==> r == Result::<(), SeqError>::Err(
                SeqError::OutOfRangeAddress,
            ) && *final(self) == *old(self),
    {
        if step < STEPS && pitch < PITCHES {
            self.toggle(step, pitch);
            Ok(())
        } else {
            Err(SeqError::OutOfRangeAddress)
        }
    }
}

/// Toggling the same cell twice returns a grid's flags to their original
/// state: cell toggling is an involution.
pub proof fn lemma_toggle_involution(notes: Seq<bool>, step: int, pitch: int)
    requires
        notes.len() == CELLS,
        0 <= step < STEPS,
        0 <= pitch < PITCHES,
    ensures
        spec_toggle(spec_toggle(notes, step, pitch), step, pitch) == notes,
{
    let once = spec_toggle(notes, step, pitch);
    let twice = spec_toggle(once, step, pitch);
    assert(twice =~= notes);
}

} // verus!
