//! Core of a terminal step sequencer: a fixed grid of on/off notes per
//! layer, a tempo-driven beat clock that turns elapsed milliseconds into
//! beat-boundary crossings, and the pure logic that selects which notes
//! sound on each beat and what each grid cell looks like on screen.
//!
//! Terminal handling and audio synthesis are I/O collaborators that live
//! outside this crate; they drive the engine with plain events and elapsed
//! time and consume the plain values it returns.

use vstd::prelude::*;

pub mod clock;
pub mod engine;
pub mod errors;
pub mod grid;
pub mod sequence;
pub mod tone;

verus! {

/// Number of steps (columns) in a grid: one full loop of the sequencer.
pub const STEPS: usize = 16;

/// Number of pitch rows in a grid.
pub const PITCHES: usize = 16;

/// Total number of cells in one grid layer.
pub const CELLS: usize = 256;

/// Number of layers a sequence is created with.
pub const LAYERS: usize = 5;

/// Milliseconds in a minute; a beat lasts `MSEC_PER_MINUTE / tempo` ms.
pub const MSEC_PER_MINUTE: u32 = 60000;

/// Sample rate, in Hz, at which rendered beats are synthesized.
pub const SAMPLE_RATE: u32 = 48000;

} // verus!
