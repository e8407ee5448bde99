//! An ordered, fixed-length list of grid layers played in superposition:
//! editing toggles one cell of one layer, playback gathers the active notes
//! of every layer at the current step.

use crate::grid::spec_toggle;
use crate::grid::GridLayer;
use crate::PITCHES;
use crate::STEPS;
use vstd::prelude::*;

verus! {

/// The active `(layer, pitch)` pairs contributed by pitch rows `[0, row)`
/// of layer `l` at step `step`, in increasing row order.
pub open spec fn spec_layer_pairs_upto(g: GridLayer, l: usize, step: int, row: int) -> Seq<
    (usize, usize),
>
    decreases row,
{
    if row <= 0 {
        Seq::empty()
    } else {
        spec_layer_pairs_upto(g, l, step, row - 1) + (if g.note_at(step, row - 1) {
            seq![(l, (row - 1) as usize)]
        } else {
            Seq::empty()
        })
    }
}

/// All active `(layer, pitch)` pairs of layer `l` at step `step`.
pub open spec fn spec_layer_pairs(g: GridLayer, l: usize, step: int) -> Seq<(usize, usize)> {
    spec_layer_pairs_upto(g, l, step, PITCHES as int)
}

/// The active `(layer, pitch)` pairs of layers `[0, n)` at step `step`,
/// layer by layer.
pub open spec fn spec_pairs_upto(layers: Seq<GridLayer>, step: int, n: int) -> Seq<(usize, usize)>
    decreases n,
{
    if n <= 0 {
        Seq::empty()
    } else {
        spec_pairs_upto(layers, step, n - 1) + spec_layer_pairs(
            layers[n - 1],
            (n - 1) as usize,
            step,
        )
    }
}

/// Every `(layer, pitch)` pair active at step `step` across all layers, in
/// increasing (layer, pitch) order: what must sound on that beat.
pub open spec fn spec_active_pairs(layers: Seq<GridLayer>, step: int) -> Seq<(usize, usize)> {
    spec_pairs_upto(layers, step, layers.len() as int)
}

/// The layers of the sequencer, all sharing the grid dimensions.
pub struct Sequence {
    /// The layers, in play order.
    pub layers: Vec<GridLayer>,
}

impl Sequence {
    /// Every layer holds a full grid. The layer count is fixed at creation;
    /// a sequence of zero layers is a valid, silent sequence.
    pub open spec fn wf(self) -> bool {
        forall|i: int| 0 <= i < self.layers@.len() ==> self.layers@[i].wf()
    }

    /// Whether every cell of every layer is inactive.
    pub open spec fn all_silent(self) -> bool {
        forall|i: int| 0 <= i < self.layers@.len() ==> self.layers@[i].all_silent()
    }

    /// A new sequence of `count` all-silent layers.
    pub fn with_layers(count: usize) -> (s: Sequence)
        ensures
            s.wf(),
            s.layers@.len() == count,
            s.all_silent(),
    {
        let mut layers: Vec<GridLayer> = Vec::new();
        let mut i: usize = 0;
        while i < count
            invariant
                i <= count,
                layers@.len() == i,
                forall|j: int| 0 <= j < i ==> layers@[j].wf() && layers@[j].all_silent(),
            decreases count - i,
        {
            layers.push(GridLayer::new());
            i = i + 1;
        }
        Sequence { layers }
    }

    /// Number of layers.
    pub fn layer_count(&self) -> (n: usize)
        ensures
            n == self.layers@.len(),
    {
        self.layers.len()
    }

    /// Read access to one layer, for rendering.
    pub fn layer_at(&self, index: usize) -> (g: &GridLayer)
        requires
            index < self.layers@.len(),
        ensures
            *g == self.layers@[index as int],
    {
        &self.layers[index]
    }

    /// Flips the cell `(step, pitch)` of layer `layer`; every other layer
    /// and every other cell is untouched.
    pub fn toggle(&mut self, layer: usize, step: usize, pitch: usize)
        requires
            old(self).wf(),
            layer < old(self).layers@.len(),
            step < STEPS,
            pitch < PITCHES,
        ensures
            final(self).wf(),
            final(self).layers@.len() == old(self).layers@.len(),
            final(self).layers@[layer as int].notes@ == spec_toggle(
                old(self).layers@[layer as int].notes@,
                step as int,
                pitch as int,
            ),
            forall|j: int|
                0 <= j < old(self).layers@.len() && j != layer ==> final(self).layers@[j] == old(
                    self,
                ).layers@[j],
    {
        let mut g = self.layers.remove(layer);
        g.toggle(step, pitch);
        self.layers.insert(layer, g);
    }

    /// Every `(layer, pitch)` pair active at `step` across all layers, in
    /// increasing (layer, pitch) order.
    pub fn active_notes_at(&self, step: usize) -> (notes: Vec<(usize, usize)>)
        requires
            self.wf(),
            step < STEPS,
        ensures
            notes@ == spec_active_pairs(self.layers@, step as int),
    {
        let mut notes: Vec<(usize, usize)> = Vec::new();
        let mut l: usize = 0;
        while l < self.layers.len()
            invariant
                self.wf(),
                step < STEPS,
                l <= self.layers@.len(),
                notes@ == spec_pairs_upto(self.layers@, step as int, l as int),
            decreases self.layers@.len() - l,
        {
            let mut row: usize = 0;
            while row < PITCHES
                invariant
                    self.wf(),
                    step < STEPS,
                    l < self.layers@.len(),
                    row <= PITCHES,
                    notes@ == spec_pairs_upto(self.layers@, step as int, l as int)
                        + spec_layer_pairs_upto(self.layers@[l as int], l, step as int, row as int),
                decreases PITCHES - row,
            {
                if self.layers[l].is_active(step, row) {
                    notes.push((l, row));
                }
                proof {
                    assert(notes@ =~= spec_pairs_upto(self.layers@, step as int, l as int)
                        + spec_layer_pairs_upto(
                        self.layers@[l as int],
                        l,
                        step as int,
                        row as int + 1,
                    ));
                }
                row = row + 1;
            }
            l = l + 1;
        }
        proof {
            assert(notes@ =~= spec_active_pairs(self.layers@, step as int));
        }
        notes
    }
}

/// Rows `[0, row)` of an all-silent layer contribute no pairs.
proof fn lemma_layer_pairs_silent(g: GridLayer, l: usize, step: int, row: int)
    requires
        g.wf(),
        g.all_silent(),
        0 <= step < STEPS,
        row <= PITCHES,
    ensures
        spec_layer_pairs_upto(g, l, step, row) == Seq::<(usize, usize)>::empty(),
    decreases row,
{
    if row > 0 {
        lemma_layer_pairs_silent(g, l, step, row - 1);
        assert(spec_layer_pairs_upto(g, l, step, row) =~= Seq::<(usize, usize)>::empty());
    }
}

/// Layers `[0, n)` of an all-silent stack contribute no pairs.
proof fn lemma_pairs_upto_silent(layers: Seq<GridLayer>, step: int, n: int)
    requires
        forall|i: int| 0 <= i < layers.len() ==> layers[i].wf(),
        forall|i: int| 0 <= i < layers.len() ==> layers[i].all_silent(),
        0 <= step < STEPS,
        n <= layers.len(),
    ensures
        spec_pairs_upto(layers, step, n) == Seq::<(usize, usize)>::empty(),
    decreases n,
{
    if n > 0 {
        lemma_pairs_upto_silent(layers, step, n - 1);
        lemma_layer_pairs_silent(layers[n - 1], (n - 1) as usize, step, PITCHES as int);
        assert(spec_pairs_upto(layers, step, n) =~= Seq::<(usize, usize)>::empty());
    }
}

/// A sequence whose layers are all inactive plays nothing: at every step,
/// the set of active notes is empty.
pub proof fn lemma_silent_sequence_plays_nothing(layers: Seq<GridLayer>, step: int)
    requires
        forall|i: int| 0 <= i < layers.len() ==> layers[i].wf(),
        forall|i: int| 0 <= i < layers.len() ==> layers[i].all_silent(),
        0 <= step < STEPS,
    ensures
        spec_active_pairs(layers, step) == Seq::<(usize, usize)>::empty(),
{
    lemma_pairs_upto_silent(layers, step, layers.len() as int);
}

} // verus!
