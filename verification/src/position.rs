//! What the library asks of a position before it hands it to the rules
//! engine: the move generator has room for the moves of sixteen pieces, and
//! a position can only be built from a setup that holds the king of the side
//! to move.

use vstd::prelude::*;
use chess::{Board, BoardBuilder};
use crate::pieces::{Occupant, PieceKind, Side};
use crate::rules::{
    color_at, color_on, consistent, is_sane, setup_at, setup_side, setup_square, setup_turn,
    side_to_move, turn_of,
};

verus! {

/// The most pieces that either side has in a game of chess.
pub const MAX_PIECES: u8 = 16;

/// How many of the first `n` squares of a position hold a piece of `side`.
pub open spec fn pieces_upto(board: Board, side: Side, n: int) -> int
    decreases n,
{
    if n <= 0 {
        0
    } else {
        pieces_upto(board, side, n - 1) + if color_at(board, (n - 1) as u8) == Some(side) {
            1int
        } else {
            0int
        }
    }
}

/// How many pieces `side` has in a position.
pub open spec fn pieces_of(board: Board, side: Side) -> int {
    pieces_upto(board, side, 64)
}

/// Whether the rules engine can generate the moves of a position: the
/// position is consistent, and the side to move has no more pieces than
/// the generator has room for.
pub open spec fn playable(board: Board) -> bool {
    consistent(board) && pieces_of(board, turn_of(board)) <= MAX_PIECES
}

/// Whether a setup holds a king of the side to move on one of its squares.
pub open spec fn mover_has_king(setup: BoardBuilder) -> bool {
    exists|square: u8|
        square < 64 && #[trigger] setup_at(setup, square) == Some(
            Occupant { kind: PieceKind::King, side: setup_turn(setup) },
        )
}

/// Counts the pieces of `side` in a position.
pub fn count_pieces(board: &Board, side: Side) -> (n: u8)
    ensures
        n == pieces_of(*board, side),
        n <= 64,
{
    let mut n: u8 = 0;
    let mut square: u8 = 0;
    while square < 64
        invariant
            square <= 64,
            n == pieces_upto(*board, side, square as int),
            n <= square,
        decreases 64 - square,
    {
        let held: bool = match color_on(board, square) {
            Some(owner) => owner == side,
            None => false,
        };
        if held {
            n = n + 1;
        }
        square = square + 1;
    }
    n
}

/// Whether the rules engine can generate the moves of a position.
pub fn is_playable(board: &Board) -> (yes: bool)
    ensures
        yes == playable(*board),
{
    is_sane(board) && count_pieces(board, side_to_move(board)) <= MAX_PIECES
}

/// Whether a setup holds a king of the side to move.
pub fn has_mover_king(setup: &BoardBuilder) -> (yes: bool)
    ensures
        yes == mover_has_king(*setup),
{
    let wanted = Occupant { kind: PieceKind::King, side: setup_side(setup) };
    let mut square: u8 = 0;
    while square < 64
        invariant
            square <= 64,
            wanted == (Occupant { kind: PieceKind::King, side: setup_turn(*setup) }),
            forall|earlier: u8| earlier < square ==> #[trigger] setup_at(*setup, earlier) != Some(wanted),
        decreases 64 - square,
    {
        let found: bool = match setup_square(setup, square) {
            Some(occupant) => occupant == wanted,
            None => false,
        };
        if found {
            return true;
        }
        square = square + 1;
    }
    false
}

} // verus!
