//! The beat clock: converts elapsed wall-clock milliseconds and a tempo in
//! beats per minute into discrete beat-boundary crossings.
//!
//! Two behavioural choices are deliberate and kept:
//! - When a boundary is crossed, the accumulator resets to exactly zero and
//!   any remainder beyond one beat duration is discarded, so long-running
//!   playback drifts slightly below the nominal tempo.
//! - At most one boundary is crossed per `advance` call, however large the
//!   elapsed time is; very large ticks therefore skip beats.

use crate::errors::SeqError;
use crate::MSEC_PER_MINUTE;
use crate::STEPS;
use vstd::prelude::*;

verus! {

/// Duration of one beat in milliseconds at the given tempo:
/// `MSEC_PER_MINUTE / tempo`, with integer division.
pub open spec fn spec_beat_duration_ms(tempo: nat) -> nat {
    (MSEC_PER_MINUTE as nat) / tempo
}

/// One advance of the clock, at the specification level: accumulate `dt`
/// milliseconds on top of `msec`; if the total reaches one beat duration,
/// reset the accumulator to zero and move to the next beat modulo `STEPS`,
/// reporting the crossing. The result is the new beat index, the new
/// accumulator, and whether a boundary was crossed.
pub open spec fn spec_advance(beat: nat, msec: nat, dt: nat, tempo: nat) -> (nat, nat, bool) {
    if msec + dt >= spec_beat_duration_ms(tempo) {
        (((beat + 1) % (STEPS as nat)), 0nat, true)
    } else {
        (beat, msec + dt, false)
    }
}

/// The clock state and the number of crossings after `k` successive
/// advances, each with the same elapsed time `dt`.
pub open spec fn spec_run(beat: nat, msec: nat, k: nat, dt: nat, tempo: nat) -> (nat, nat, nat)
    decreases k,
{
    if k == 0 {
        (beat, msec, 0nat)
    } else {
        let (b1, m1, c) = spec_advance(beat, msec, dt, tempo);
        let (bf, mf, n) = spec_run(b1, m1, (k - 1) as nat, dt, tempo);
        (bf, mf, (n + if c { 1nat } else { 0nat }) as nat)
    }
}

/// Total elapsed time of a sequence of advances.
pub open spec fn spec_sum(dts: Seq<nat>) -> nat
    decreases dts.len(),
{
    if dts.len() == 0 {
        0nat
    } else {
        dts[0] + spec_sum(dts.drop_first())
    }
}

/// The clock state and the number of crossings after advancing once per
/// element of `dts`, in order.
pub open spec fn spec_run_seq(beat: nat, msec: nat, dts: Seq<nat>, tempo: nat) -> (nat, nat, nat)
    decreases dts.len(),
{
    if dts.len() == 0 {
        (beat, msec, 0nat)
    } else {
        let (b1, m1, c) = spec_advance(beat, msec, dts[0], tempo);
        let (bf, mf, n) = spec_run_seq(b1, m1, dts.drop_first(), tempo);
        (bf, mf, (n + if c {
            1nat
        } else {
            0nat
        }) as nat)
    }
}

/// Whether no single advance overshoots a beat boundary: each call lands
/// at or short of the next boundary. Such a run never discards time at a
/// reset and never has more than one boundary inside one call, so the two
/// deliberate simplifications of this clock cost it nothing.
pub open spec fn spec_no_overshoot(msec: nat, dts: Seq<nat>, tempo: nat) -> bool
    decreases dts.len(),
{
    if dts.len() == 0 {
        true
    } else {
        &&& msec + dts[0] <= spec_beat_duration_ms(tempo)
        &&& spec_no_overshoot(spec_advance(0nat, msec, dts[0], tempo).1, dts.drop_first(), tempo)
    }
}

/// The sequencer's rhythmic clock. `beat` is the current step index in
/// `[0, STEPS)`; `msec_in_beat` is the time accumulated inside the current
/// beat, reset to zero at every boundary.
pub struct BeatClock {
    /// Current beat index.
    pub beat: usize,
    /// Milliseconds accumulated inside the current beat.
    pub msec_in_beat: u32,
}

impl BeatClock {
    /// The beat index stays inside the loop.
    pub open spec fn wf(self) -> bool {
        self.beat < STEPS
    }

    /// A clock at the top of beat zero.
    pub fn new() -> (c: BeatClock)
        ensures
            c.wf(),
            c.beat == 0,
            c.msec_in_beat == 0,
    {
        BeatClock { beat: 0, msec_in_beat: 0 }
    }

    /// Accumulates `dt` elapsed milliseconds and reports `Some(new_beat)`
    /// exactly when a beat boundary was crossed, per `spec_advance`. The
    /// beat duration is recomputed from the tempo on every call, so tempo
    /// changes between calls take effect immediately.
    pub fn advance(&mut self, dt: u32, tempo: u32) -> (crossed: Option<usize>)
        requires
            old(self).wf(),
            1 <= tempo,
            old(self).msec_in_beat + dt <= u32::MAX,
        ensures
            final(self).wf(),
            (final(self).beat as nat, final(self).msec_in_beat as nat, crossed is Some)
                == spec_advance(
                old(self).beat as nat,
                old(self).msec_in_beat as nat,
                dt as nat,
                tempo as nat,
            ),
            crossed is Some ==> crossed == Some(final(self).beat),
    {
        self.msec_in_beat = self.msec_in_beat + dt;
        if self.msec_in_beat >= MSEC_PER_MINUTE / tempo {
            self.msec_in_beat = 0;
            self.beat = (self.beat + 1) % STEPS;
            Some(self.beat)
        } else {
            None
        }
    }
}

/// Checks a tempo at the configuration boundary: zero beats per minute is
/// rejected, every positive tempo is accepted unchanged.
pub fn validate_tempo(tempo: u32) -> (r: Result<u32, SeqError>)
    ensures
        tempo >= 1 ==> r == Result::<u32, SeqError>::Ok(tempo),
        tempo == 0 ==> r == Result::<u32, SeqError>::Err(SeqError::InvalidTempo),
{
    if tempo == 0 {
        Err(SeqError::InvalidTempo)
    } else {
        Ok(tempo)
    }
}

/// Duration of one beat in milliseconds: `MSEC_PER_MINUTE / tempo`.
pub fn beat_duration_ms(tempo: u32) -> (d: u32)
    requires
        1 <= tempo,
    ensures
        d == spec_beat_duration_ms(tempo as nat),
{
    MSEC_PER_MINUTE / tempo
}

/// Advances that each deliver exactly one beat duration cross exactly one
/// boundary per call: starting at the top of a beat, `k` such advances
/// cross `k` boundaries and land `k` beats further round the loop, again
/// with an empty accumulator.
pub proof fn lemma_full_beats_cross_exactly(beat: nat, k: nat, tempo: nat)
    requires
        beat < STEPS,
        1 <= tempo,
    ensures
        spec_run(beat, 0nat, k, spec_beat_duration_ms(tempo), tempo) == (
            ((beat + k) % (STEPS as nat)),
            0nat,
            k,
        ),
    decreases k,
{
    let s = STEPS as nat;
    if k == 0 {
        vstd::arithmetic::div_mod::lemma_small_mod(beat, s);
    } else {
        let d = spec_beat_duration_ms(tempo);
        let b1 = (beat + 1) % s;
        vstd::arithmetic::div_mod::lemma_mod_bound((beat + 1) as int, s as int);
        lemma_full_beats_cross_exactly(b1, (k - 1) as nat, tempo);
        vstd::arithmetic::div_mod::lemma_mod_twice((beat + 1) as int, s as int);
        vstd::arithmetic::div_mod::lemma_add_mod_noop((beat + 1) as int, (k - 1) as int, s as int);
        vstd::arithmetic::div_mod::lemma_add_mod_noop(b1 as int, (k - 1) as int, s as int);
        assert((b1 as int + (k - 1)) % (s as int) == (beat as int + k) % (s as int));
    }
}

/// A run of advances that never overshoots a boundary loses no time:
/// starting `msec` into a beat, it crosses exactly
/// `(msec + total elapsed) / beat duration` boundaries, leaves
/// `(msec + total elapsed) % beat duration` milliseconds in the final
/// beat, and moves the beat index forward by one step per crossing.
pub proof fn lemma_no_overshoot_run(beat: nat, msec: nat, dts: Seq<nat>, tempo: nat)
    requires
        beat < STEPS,
        1 <= tempo <= MSEC_PER_MINUTE,
        msec < spec_beat_duration_ms(tempo),
        spec_no_overshoot(msec, dts, tempo),
    ensures
        ({
            let d = spec_beat_duration_ms(tempo);
            let (bf, mf, n) = spec_run_seq(beat, msec, dts, tempo);
            &&& n == (msec + spec_sum(dts)) / d
            &&& mf == (msec + spec_sum(dts)) % d
            &&& bf == (beat + n) % (STEPS as nat)
        }),
    decreases dts.len(),
{
    let s = STEPS as nat;
    let d = spec_beat_duration_ms(tempo);
    vstd::arithmetic::div_mod::lemma_div_non_zero(MSEC_PER_MINUTE as int, tempo as int);
    if dts.len() == 0 {
        vstd::arithmetic::div_mod::lemma_basic_div(msec as int, d as int);
        vstd::arithmetic::div_mod::lemma_small_mod(msec, d);
        vstd::arithmetic::div_mod::lemma_small_mod(beat, s);
    } else {
        let dt = dts[0];
        let rest = dts.drop_first();
        if msec + dt < d {
            lemma_no_overshoot_run(beat, msec + dt, rest, tempo);
        } else {
            let b1 = (beat + 1) % s;
            let sum_rest = spec_sum(rest);
            vstd::arithmetic::div_mod::lemma_mod_bound((beat + 1) as int, s as int);
            lemma_no_overshoot_run(b1, 0nat, rest, tempo);
            vstd::arithmetic::div_mod::lemma_div_plus_one(sum_rest as int, d as int);
            vstd::arithmetic::div_mod::lemma_mod_add_multiples_vanish(sum_rest as int, d as int);
            let n_rest = spec_run_seq(b1, 0nat, rest, tempo).2;
            vstd::arithmetic::div_mod::lemma_mod_twice((beat + 1) as int, s as int);
            vstd::arithmetic::div_mod::lemma_add_mod_noop(
                (beat + 1) as int,
                n_rest as int,
                s as int,
            );
            vstd::arithmetic::div_mod::lemma_add_mod_noop(b1 as int, n_rest as int, s as int);
            assert((b1 as int + n_rest) % (s as int) == (beat as int + 1 + n_rest) % (s as int));
        }
    }
}

/// Advance calls that sum to exactly `k` beat durations, none of them
/// overshooting a boundary, cross exactly `k` boundaries: the beat index
/// moves `k` steps round the loop and the accumulator returns to zero.
pub proof fn lemma_exact_sum_crosses_exactly(beat: nat, dts: Seq<nat>, k: nat, tempo: nat)
    requires
        beat < STEPS,
        1 <= tempo <= MSEC_PER_MINUTE,
        spec_no_overshoot(0nat, dts, tempo),
        spec_sum(dts) == k * spec_beat_duration_ms(tempo),
    ensures
        spec_run_seq(beat, 0nat, dts, tempo) == (((beat + k) % (STEPS as nat)), 0nat, k),
{
    let d = spec_beat_duration_ms(tempo);
    vstd::arithmetic::div_mod::lemma_div_non_zero(MSEC_PER_MINUTE as int, tempo as int);
    lemma_no_overshoot_run(beat, 0nat, dts, tempo);
    vstd::arithmetic::div_mod::lemma_div_by_multiple(k as int, d as int);
    vstd::arithmetic::div_mod::lemma_mod_multiples_basic(k as int, d as int);
}

/// After `STEPS` consecutive full-beat crossings the beat index returns to
/// its starting value: the beat cycle is closed.
pub proof fn lemma_beat_cycle(beat: nat, tempo: nat)
    requires
        beat < STEPS,
        1 <= tempo,
    ensures
        spec_run(beat, 0nat, STEPS as nat, spec_beat_duration_ms(tempo), tempo) == (
            beat,
            0nat,
            STEPS as nat,
        ),
{
    lemma_full_beats_cross_exactly(beat, STEPS as nat, tempo);
    vstd::arithmetic::div_mod::lemma_mod_add_multiples_vanish(beat as int, STEPS as int);
    vstd::arithmetic::div_mod::lemma_small_mod(beat, STEPS as nat);
}

} // verus!
