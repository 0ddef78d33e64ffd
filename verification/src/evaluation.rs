//! The static evaluator: the score of a position, counted over its 64
//! squares from White's point of view.

use vstd::prelude::*;
use chess::Board;
use crate::pieces::{Occupant, PieceKind, Placement, Side, recolor, recolor_square};
use crate::rules::{piece_at, color_at, piece_on, color_on};
use crate::scoring::{
    centrality, file_of, lemma_piece_worth_bounds, piece_worth, rank_of, score_square,
    square_score,
};

verus! {

/// The content of a square, from what the rules engine reports of it: a
/// square counts as occupied when it reports both a piece and an owner.
pub open spec fn square_content(piece: Option<PieceKind>, owner: Option<Side>) -> Option<
    Occupant,
> {
    match (piece, owner) {
        (Some(kind), Some(side)) => Some(Occupant { kind, side }),
        _ => None,
    }
}

/// The content of the 64 squares of a position.
pub open spec fn placement_of(board: Board) -> Placement {
    Seq::new(
        64,
        |square: int| square_content(piece_at(board, square as u8), color_at(board, square as u8)),
    )
}

/// The scores of the first `n` squares of a placement, added up.
pub open spec fn score_upto(p: Placement, n: int) -> int
    decreases n,
{
    if n <= 0 {
        0
    } else {
        score_upto(p, n - 1) + square_score(p[n - 1], n - 1)
    }
}

/// The score of a placement: the scores of all its squares, added up.
pub open spec fn placement_score(p: Placement) -> int {
    score_upto(p, p.len() as int)
}

/// The score of a position.
pub open spec fn position_score(board: Board) -> int {
    placement_score(placement_of(board))
}

/// No square adds more than 1003 to a score in either direction.
pub proof fn lemma_score_upto_bounds(p: Placement, n: int)
    requires
        0 <= n <= p.len() <= 64,
    ensures
        -1003 * n <= score_upto(p, n) <= 1003 * n,
    decreases n,
{
    if n > 0 {
        lemma_score_upto_bounds(p, n - 1);
        if let Some(occupant) = p[n - 1] {
            lemma_piece_worth_bounds(occupant, n - 1);
        }
    }
}

/// The score of a position lies strictly between the two extremes of `i32`,
/// so it is never taken for an infinity.
pub proof fn lemma_position_score_bounds(board: Board)
    ensures
        -64192 <= position_score(board) <= 64192,
{
    lemma_score_upto_bounds(placement_of(board), 64);
}

/// Combines what the rules engine reports of a square into its content.
pub fn content_of(piece: Option<PieceKind>, owner: Option<Side>) -> (content: Option<Occupant>)
    ensures
        content == square_content(piece, owner),
{
    match (piece, owner) {
        (Some(kind), Some(side)) => Some(Occupant { kind, side }),
        _ => None,
    }
}

/// Scores a position from White's point of view: every white piece adds its
/// worth, every black piece takes its worth away. The empty board scores 0.
pub fn evaluate(board: Board) -> (score: i32)
    ensures
        score == position_score(board),
        -64192 <= score <= 64192,
{
    let ghost p = placement_of(board);
    let mut score: i32 = 0;
    let mut square: u8 = 0;
    while square < 64
        invariant
            square <= 64,
            p == placement_of(board),
            score == score_upto(p, square as int),
            -1003 * square <= score <= 1003 * square,
        decreases 64 - square,
    {
        let content = content_of(piece_on(&board, square), color_on(&board, square));
        assert(p[square as int] == content);
        score = score + score_square(content, square);
        square = square + 1;
    }
    score
}

/// How much the rank of a piece shifts the score of a position and of its
/// recoloured twin together. Pawns and kings are scored by how far they have
/// advanced, which depends on their colour: a piece that changes colour on
/// the spot is worth something else to its new owner. The other pieces are
/// worth the same to both.
pub open spec fn square_tilt(content: Option<Occupant>, square: int) -> int {
    match content {
        Some(occupant) => match occupant.kind {
            PieceKind::Pawn => (2 * rank_of(square) - 7) * centrality(
                rank_of(square),
                file_of(square),
            ),
            PieceKind::King => 7 - 2 * rank_of(square),
            _ => 0,
        },
        None => 0,
    }
}

/// The tilts of the first `n` squares of a placement, added up.
pub open spec fn tilt_upto(p: Placement, n: int) -> int
    decreases n,
{
    if n <= 0 {
        0
    } else {
        tilt_upto(p, n - 1) + square_tilt(p[n - 1], n - 1)
    }
}

/// The tilt of a placement: the tilts of all its squares, added up.
pub open spec fn tilt(p: Placement) -> int {
    tilt_upto(p, p.len() as int)
}

/// The scores that a square adds before and after its piece changes colour
/// add up to the tilt of the square.
pub proof fn lemma_recolor_square(content: Option<Occupant>, square: int)
    ensures
        square_score(recolor_square(content), square) + square_score(content, square)
            == square_tilt(content, square),
{
    if let Some(occupant) = content {
        let rank = rank_of(square);
        let c = centrality(rank, file_of(square));
        assert(rank * c - (7 - rank) * c == (2 * rank - 7) * c) by (nonlinear_arith);
    }
}

/// The scores of a placement and of its recoloured twin add up to its tilt,
/// over any number of their first squares.
pub proof fn lemma_recolor_score_upto(p: Placement, n: int)
    requires
        0 <= n <= p.len(),
    ensures
        score_upto(recolor(p), n) + score_upto(p, n) == tilt_upto(p, n),
    decreases n,
{
    if n > 0 {
        lemma_recolor_score_upto(p, n - 1);
        lemma_recolor_square(p[n - 1], n - 1);
    }
}

/// The scores of a placement and of its recoloured twin add up to its tilt.
pub proof fn lemma_recolor_score(p: Placement)
    ensures
        placement_score(recolor(p)) + placement_score(p) == tilt(p),
{
    lemma_recolor_score_upto(p, p.len() as int);
}

/// Colour symmetry: when every piece changes colour and keeps its square,
/// the score changes its sign, provided that the placement has no tilt.
pub proof fn lemma_recolor_negates_score(p: Placement)
    requires
        tilt(p) == 0,
    ensures
        placement_score(recolor(p)) == -placement_score(p),
{
    lemma_recolor_score(p);
}

/// Over any number of its first squares, a placement without pawns and
/// kings has no tilt.
pub proof fn lemma_no_tilt_upto(p: Placement, n: int)
    requires
        0 <= n <= p.len(),
        forall|i: int|
            0 <= i < p.len() ==> (#[trigger] p[i] matches Some(occupant) ==> occupant.kind
                != PieceKind::Pawn && occupant.kind != PieceKind::King),
    ensures
        tilt_upto(p, n) == 0,
    decreases n,
{
    if n > 0 {
        lemma_no_tilt_upto(p, n - 1);
    }
}

/// Colour symmetry holds of every placement without pawns and kings.
pub proof fn lemma_recolor_negates_score_of_officers(p: Placement)
    requires
        forall|i: int|
            0 <= i < p.len() ==> (#[trigger] p[i] matches Some(occupant) ==> occupant.kind
                != PieceKind::Pawn && occupant.kind != PieceKind::King),
    ensures
        placement_score(recolor(p)) == -placement_score(p),
{
    lemma_no_tilt_upto(p, p.len() as int);
    lemma_recolor_negates_score(p);
}

/// Colour symmetry on positions: when `twin` holds the pieces of `board` on
/// the same squares in the other colour, and the placement has no tilt, the
/// two positions have opposite scores.
pub proof fn lemma_recolored_position_negates_score(board: Board, twin: Board)
    requires
        placement_of(twin) == recolor(placement_of(board)),
        tilt(placement_of(board)) == 0,
    ensures
        position_score(twin) == -position_score(board),
{
    lemma_recolor_negates_score(placement_of(board));
}

/// Changing the content of one square changes the score by the difference
/// between what the square added before and what it adds now.
pub proof fn lemma_score_after_update(
    p: Placement,
    square: int,
    content: Option<Occupant>,
    n: int,
)
    requires
        0 <= square < p.len(),
        0 <= n <= p.len(),
    ensures
        score_upto(p.update(square, content), n) == score_upto(p, n) + if square < n {
            square_score(content, square) - square_score(p[square], square)
        } else {
            0
        },
    decreases n,
{
    if n > 0 {
        lemma_score_after_update(p, square, content, n - 1);
    }
}

/// Material dominance: a queen added on an empty square moves the score in
/// her owner's favour, by her worth on that square.
pub proof fn lemma_extra_queen_favours_owner(p: Placement, square: int, side: Side)
    requires
        0 <= square < p.len(),
        square < 64,
        p[square] is None,
    ensures
        ({
            let queen = Occupant { kind: PieceKind::Queen, side };
            let with_queen = p.update(square, Some(queen));
            &&& piece_worth(queen, square) == 90 + centrality(rank_of(square), file_of(square))
            &&& piece_worth(queen, square) >= 94
            &&& side == Side::White ==> placement_score(with_queen) == placement_score(p)
                + piece_worth(queen, square)
            &&& side == Side::Black ==> placement_score(with_queen) == placement_score(p)
                - piece_worth(queen, square)
            &&& side == Side::White ==> placement_score(with_queen) > placement_score(p)
            &&& side == Side::Black ==> placement_score(with_queen) < placement_score(p)
        }),
{
    let queen = Occupant { kind: PieceKind::Queen, side };
    lemma_score_after_update(p, square, Some(queen), p.len() as int);
    lemma_piece_worth_bounds(queen, square);
}

/// Material dominance on positions: when `richer` differs from `board` only
/// by a queen of `side` on a square that is empty in `board`, it scores
/// strictly better for `side`.
pub proof fn lemma_extra_queen_position(board: Board, richer: Board, square: int, side: Side)
    requires
        0 <= square < 64,
        placement_of(board)[square] is None,
        placement_of(richer) == placement_of(board).update(
            square,
            Some(Occupant { kind: PieceKind::Queen, side }),
        ),
    ensures
        side == Side::White ==> position_score(richer) > position_score(board),
        side == Side::Black ==> position_score(richer) < position_score(board),
{
    lemma_extra_queen_favours_owner(placement_of(board), square, side);
}

/// Over any number of its first squares, a placement without pieces scores 0.
pub proof fn lemma_empty_score_upto(p: Placement, n: int)
    requires
        0 <= n <= p.len(),
        forall|i: int| 0 <= i < p.len() ==> #[trigger] p[i] is None,
    ensures
        score_upto(p, n) == 0,
    decreases n,
{
    if n > 0 {
        lemma_empty_score_upto(p, n - 1);
    }
}

/// The empty board scores 0.
pub proof fn lemma_empty_placement_scores_zero(p: Placement)
    requires
        forall|i: int| 0 <= i < p.len() ==> #[trigger] p[i] is None,
    ensures
        placement_score(p) == 0,
{
    lemma_empty_score_upto(p, p.len() as int);
}

} // verus!
