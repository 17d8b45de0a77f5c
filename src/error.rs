//! Why a move could not be replayed.

use vstd::prelude::*;

verus! {

/// The ways in which replaying one notation move can fail.
#[derive(PartialEq, Eq, Structural, Clone, Copy, Debug)]
pub enum MoveError {
    /// A file outside `a`..`h` or a rank outside `1`..`8`.
    InvalidSquare,
    /// No piece of the required kind and color could have made the move.
    UnresolvedMove,
    /// The move would take a king off the board or turn it into another
    /// piece, which the engine does not model.
    UnsupportedMove,
}

} // verus!
