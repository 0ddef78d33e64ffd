//! Why the engine could not answer.

use vstd::prelude::*;

verus! {

/// The two ways in which a request can fail.
#[derive(Clone, Copy, Debug, PartialEq, Eq, Structural)]
pub enum EngineError {
    /// The text does not describe a position that the rules engine accepts.
    InvalidPosition,
    /// The side to move has no legal move: the game is over.
    NoLegalMove,
}

} // verus!
