//! The sequencer's error taxonomy. The core performs no I/O, so the only
//! error conditions are invalid configuration values and out-of-range cell
//! addresses; both signal caller mistakes rather than recoverable runtime
//! conditions.

use vstd::prelude::*;

verus! {

/// Why a sequencer operation was rejected.
#[derive(Clone, Copy, Debug, PartialEq, Eq, Structural)]
pub enum SeqError {
    /// A tempo of zero beats per minute was supplied; a beat would have no
    /// duration, so the configuration is rejected.
    InvalidTempo,
    /// A step or pitch address outside the grid was supplied.
    OutOfRangeAddress,
}

impl SeqError {
    /// A short human-readable description of the error.
    pub fn describe(&self) -> (r: &'static str)
        ensures
            r@ == (match self {
                SeqError::InvalidTempo => "tempo must be positive"@,
                SeqError::OutOfRangeAddress => "cell address outside the grid"@,
            }),
    {
        match self {
            SeqError::InvalidTempo => "tempo must be positive",
            SeqError::OutOfRangeAddress => "cell address outside the grid",
        }
    }
}

} // verus!
