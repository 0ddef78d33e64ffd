//! The vocabulary the evaluator works with: piece kinds, sides and the
//! content of a square.

use vstd::prelude::*;

verus! {

/// The six kinds of chess piece.
#[derive(Clone, Copy, Debug, PartialEq, Eq, Structural)]
pub enum PieceKind {
    Pawn,
    Knight,
    Bishop,
    Rook,
    Queen,
    King,
}

/// One of the two players. Scores are counted from White's point of view:
/// White is the maximizing side and Black the minimizing side.
#[derive(Clone, Copy, Debug, PartialEq, Eq, Structural)]
pub enum Side {
    White,
    Black,
}

impl Side {
    /// The other player.
    pub open spec fn flipped(self) -> Side {
        match self {
            Side::White => Side::Black,
            Side::Black => Side::White,
        }
    }

    /// The other player.
    pub fn opponent(self) -> (other: Side)
        ensures
            other == self.flipped(),
    {
        match self {
            Side::White => Side::Black,
            Side::Black => Side::White,
        }
    }

    /// Whether this side prefers higher scores.
    pub open spec fn maximizes(self) -> bool {
        self == Side::White
    }

    /// Whether this side prefers higher scores.
    pub fn is_maximizing(self) -> (b: bool)
        ensures
            b == self.maximizes(),
    {
        match self {
            Side::White => true,
            Side::Black => false,
        }
    }
}

/// A piece standing on a square.
#[derive(Clone, Copy, Debug, PartialEq, Eq, Structural)]
pub struct Occupant {
    pub kind: PieceKind,
    pub side: Side,
}

impl Occupant {
    /// The same piece in the other player's colour.
    pub open spec fn recolored(self) -> Occupant {
        Occupant { kind: self.kind, side: self.side.flipped() }
    }
}

/// What a board holds on its 64 squares, by square index. Index `8 * rank + file`
/// is the square on the given rank and file, both counted from 0.
pub type Placement = Seq<Option<Occupant>>;

/// The placement in which every piece of `p` has changed colour and kept its square.
pub open spec fn recolor(p: Placement) -> Placement {
    p.map_values(|content: Option<Occupant>| recolor_square(content))
}

/// The content of a square after its piece, if any, changed colour.
pub open spec fn recolor_square(content: Option<Occupant>) -> Option<Occupant> {
    match content {
        Some(occupant) => Some(occupant.recolored()),
        None => None,
    }
}

} // verus!
