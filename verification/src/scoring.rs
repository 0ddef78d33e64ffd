//! Scores of single pieces: material plus a positional term that depends on
//! how far the piece stands from the centre of the board.

use vstd::prelude::*;
use crate::pieces::{Occupant, PieceKind, Side};

verus! {

/// Distance of a rank or file index from the two central ranks or files.
pub open spec fn center_distance(n: int) -> int {
    if n < 3 {
        3 - n
    } else if n > 4 {
        n - 4
    } else {
        0
    }
}

/// Distance of a square from the four central squares, ranks and files added.
pub open spec fn center_distance_of(rank: int, file: int) -> int {
    center_distance(rank) + center_distance(file)
}

/// Closeness to the centre: 10 on the central squares, 4 in the corners.
pub open spec fn centrality(rank: int, file: int) -> int {
    10 - center_distance_of(rank, file)
}

/// The rank of a square index.
pub open spec fn rank_of(square: int) -> int {
    square / 8
}

/// The file of a square index.
pub open spec fn file_of(square: int) -> int {
    square % 8
}

/// How far a piece of `side` on `rank` has advanced towards its promotion rank.
pub open spec fn advancement(side: Side, rank: int) -> int {
    match side {
        Side::White => rank,
        Side::Black => 7 - rank,
    }
}

/// The positional term of a piece of the given kind and side on the given square.
pub open spec fn position_weight(kind: PieceKind, side: Side, square: int) -> int {
    let rank = rank_of(square);
    let file = file_of(square);
    match kind {
        PieceKind::Pawn => advancement(side, rank) * centrality(rank, file),
        PieceKind::King => -advancement(side, rank) + center_distance(file),
        PieceKind::Knight => -center_distance_of(rank, file),
        PieceKind::Bishop | PieceKind::Rook | PieceKind::Queen => centrality(rank, file),
    }
}

/// Material value of a piece kind, in pawns.
pub open spec fn material(kind: PieceKind) -> int {
    match kind {
        PieceKind::Pawn => 1,
        PieceKind::Knight => 3,
        PieceKind::Bishop => 3,
        PieceKind::Rook => 5,
        PieceKind::Queen => 9,
        PieceKind::King => 100,
    }
}

/// Worth of a piece to its owner: ten times its material plus its positional term.
pub open spec fn piece_worth(occupant: Occupant, square: int) -> int {
    10 * material(occupant.kind) + position_weight(occupant.kind, occupant.side, square)
}

/// What a square adds to the score of a position: the worth of a white piece,
/// minus the worth of a black piece, nothing for an empty square.
pub open spec fn square_score(content: Option<Occupant>, square: int) -> int {
    match content {
        Some(occupant) => match occupant.side {
            Side::White => piece_worth(occupant, square),
            Side::Black => -piece_worth(occupant, square),
        },
        None => 0,
    }
}

/// The positional term of a pawn lies between 0 and 49: a pawn one step
/// from promotion stands on a rank three steps from the centre.
pub proof fn lemma_pawn_weight_bounds(side: Side, square: int)
    requires
        0 <= square < 64,
    ensures
        0 <= position_weight(PieceKind::Pawn, side, square) <= 49,
{
    let rank = rank_of(square);
    let a = advancement(side, rank);
    let c = centrality(rank, file_of(square));
    assert(0 <= a <= 7);
    assert(4 <= c <= 10 - center_distance(rank));
    assert(0 <= a * c) by (nonlinear_arith)
        requires
            0 <= a,
            0 <= c,
    ;
    if a == 7 {
        assert(a * c == 7 * c);
    } else if a == 6 {
        assert(a * c == 6 * c);
    } else if a == 5 {
        assert(a * c == 5 * c);
    } else if a == 4 {
        assert(a * c == 4 * c);
    } else {
        assert(a * c <= 30) by (nonlinear_arith)
            requires
                0 <= a <= 3,
                0 <= c <= 10,
        ;
    }
}

/// Every piece is worth something to its owner, and no more than 1003,
/// which is a king on its back rank at the edge of the board.
pub proof fn lemma_piece_worth_bounds(occupant: Occupant, square: int)
    requires
        0 <= square < 64,
    ensures
        10 <= piece_worth(occupant, square) <= 1003,
{
    lemma_pawn_weight_bounds(occupant.side, square);
}

/// Distance of a rank or file index from the two central ranks or files.
pub fn distance_from_center_single(n: i32) -> (d: i32)
    requires
        0 <= n <= 7,
    ensures
        d == center_distance(n as int),
        0 <= d <= 3,
{
    if n == 3 || n == 4 {
        0
    } else if n < 3 {
        3 - n
    } else {
        n - 4
    }
}

/// Distance of a square from the four central squares.
pub fn distance_from_center(rank: i32, file: i32) -> (d: i32)
    requires
        0 <= rank <= 7,
        0 <= file <= 7,
    ensures
        d == center_distance_of(rank as int, file as int),
        0 <= d <= 6,
{
    distance_from_center_single(rank) + distance_from_center_single(file)
}

/// Closeness of a square to the centre.
pub fn score_distance_from_center(rank: i32, file: i32) -> (s: i32)
    requires
        0 <= rank <= 7,
        0 <= file <= 7,
    ensures
        s == centrality(rank as int, file as int),
        4 <= s <= 10,
{
    let distance: i32 = distance_from_center(rank, file);
    10 - distance
}

/// The positional term of `piece`, owned by `color`, on the square with index `square`.
pub fn piece_position_weight(piece: PieceKind, square: u8, color: Side) -> (w: i32)
    requires
        square < 64,
    ensures
        w == position_weight(piece, color, square as int),
        -7 <= w <= 49,
{
    let rank: i32 = (square / 8) as i32;
    let file: i32 = (square % 8) as i32;
    match piece {
        PieceKind::Pawn => {
            let rank_value: i32 = match color {
                Side::White => rank,
                Side::Black => 7 - rank,
            };
            let file_value: i32 = score_distance_from_center(rank, file);
            proof {
                lemma_pawn_weight_bounds(color, square as int);
            }
            rank_value * file_value
        },
        PieceKind::King => {
            let rank_value: i32 = match color {
                Side::White => rank,
                Side::Black => 7 - rank,
            };
            let file_value: i32 = distance_from_center_single(file);
            -rank_value + file_value
        },
        PieceKind::Knight => -distance_from_center(rank, file),
        PieceKind::Bishop | PieceKind::Rook | PieceKind::Queen => score_distance_from_center(
            rank,
            file,
        ),
    }
}

/// Material value of a piece kind, in pawns.
pub fn material_value(piece: PieceKind) -> (v: i32)
    ensures
        v == material(piece),
{
    match piece {
        PieceKind::Pawn => 1,
        PieceKind::Knight => 3,
        PieceKind::Bishop => 3,
        PieceKind::Rook => 5,
        PieceKind::Queen => 9,
        PieceKind::King => 100,
    }
}

/// What the square with index `square` adds to the score of a position when it
/// holds `content`.
pub fn score_square(content: Option<Occupant>, square: u8) -> (s: i32)
    requires
        square < 64,
    ensures
        s == square_score(content, square as int),
        -1003 <= s <= 1003,
{
    match content {
        Some(occupant) => {
            proof {
                lemma_piece_worth_bounds(occupant, square as int);
            }
            let value: i32 = material_value(occupant.kind);
            let piece_score: i32 = value * 10 + piece_position_weight(
                occupant.kind,
                square,
                occupant.side,
            );
            match occupant.side {
                Side::White => piece_score,
                Side::Black => -piece_score,
            }
        },
        None => 0,
    }
}

} // verus!
