use std::str::FromStr;

use chess::Board;
use chess_minimax::evaluation::{content_of, evaluate};
use chess_minimax::pieces::{Occupant, PieceKind, Side};

const START: &str = "rnbqkbnr/pppppppp/8/8/8/8/PPPPPPPP/RNBQKBNR w KQkq - 0 1";

fn board(fen: &str) -> Board {
    Board::from_str(fen).unwrap()
}

#[test]
fn starting_position_evaluates_to_zero() {
    assert_eq!(evaluate(Board::default()), 0);
    assert_eq!(evaluate(board(START)), 0);
}

#[test]
fn bare_kings_on_their_home_squares_cancel() {
    assert_eq!(evaluate(board("4k3/8/8/8/8/8/8/4K3 w - - 0 1")), 0);
}

#[test]
fn a_pawn_move_to_the_centre_gains_its_positional_worth() {
    // The pawn leaves e2 (1 * 8) and reaches e4 (3 * 10).
    let after_e4 = board("rnbqkbnr/pppppppp/8/8/4P3/8/PPPP1PPP/RNBQKBNR b KQkq - 0 1");
    assert_eq!(evaluate(after_e4), 22);
    // The same for Black counts the other way.
    let after_e5 = board("rnbqkbnr/pppp1ppp/8/4p3/8/8/PPPPPPPP/RNBQKBNR w KQkq - 0 1");
    assert_eq!(evaluate(after_e5), -22);
}

#[test]
fn single_pieces_beside_the_kings() {
    // White pawn on e4: 10 + 3 * 10.
    assert_eq!(evaluate(board("4k3/8/8/8/4P3/8/8/4K3 w - - 0 1")), 40);
    // Black knight on a8: -(30 - 6).
    assert_eq!(evaluate(board("n3k3/8/8/8/8/8/8/4K3 w - - 0 1")), -24);
    // White rook on a1: 50 + 4.
    assert_eq!(evaluate(board("4k3/8/8/8/8/8/8/R3K3 w - - 0 1")), 54);
    // Black bishop on d5: -(30 + 10).
    assert_eq!(evaluate(board("4k3/8/8/3b4/8/8/8/4K3 w - - 0 1")), -40);
    // White king on g1 instead of e1: two files from the centre.
    assert_eq!(evaluate(board("4k3/8/8/8/8/8/8/6K1 w - - 0 1")), 2);
    // Black king on e7, one rank forward: worth one less to Black.
    assert_eq!(evaluate(board("8/4k3/8/8/8/8/8/4K3 w - - 0 1")), 1);
}

#[test]
fn recolouring_officers_negates_the_score() {
    let position = board("4k3/8/8/3q4/8/2N5/8/4K3 w - - 0 1");
    let twin = board("4K3/8/8/3Q4/8/2n5/8/4k3 w - - 0 1");
    // Black queen on d5: -(90 + 10); white knight on c3: 30 - 2.
    assert_eq!(evaluate(position), -72);
    assert_eq!(evaluate(twin), 72);
    assert_eq!(evaluate(twin), -evaluate(position));
}

#[test]
fn recolouring_a_pawn_shifts_the_sum_by_its_tilt() {
    let position = board("4k3/8/8/8/4P3/8/8/4K3 w - - 0 1");
    let twin = board("4K3/8/8/8/4p3/8/8/4k3 w - - 0 1");
    assert_eq!(evaluate(position), 40);
    assert_eq!(evaluate(twin), -50);
    // (2 * 3 - 7) * 10 for the pawn, nothing for kings on ranks 0 and 7.
    assert_eq!(evaluate(position) + evaluate(twin), -10);
}

#[test]
fn an_extra_queen_favours_her_owner() {
    let plain = board("rnbqkbnr/pppppppp/8/8/8/8/PPPPPPPP/RNBQKBNR w KQkq - 0 1");
    let white_up = board("rnbqkbnr/pppppppp/8/8/3Q4/8/PPPPPPPP/RNBQKBNR w KQkq - 0 1");
    let black_up = board("rnbqkbnr/pppppppp/8/8/3q4/8/PPPPPPPP/RNBQKBNR w KQkq - 0 1");
    assert!(evaluate(white_up) > evaluate(plain));
    assert!(evaluate(black_up) < evaluate(plain));
    assert_eq!(evaluate(white_up), 100);
    assert_eq!(evaluate(black_up), -100);
}

#[test]
fn missing_queen_counts_for_the_other_side() {
    let no_black_queen = board("rnb1kbnr/pppppppp/8/8/8/8/PPPPPPPP/RNBQKBNR w KQkq - 0 1");
    assert_eq!(evaluate(no_black_queen), 97);
    let no_white_queen = board("rnbqkbnr/pppppppp/8/8/8/8/PPPPPPPP/RNB1KBNR w KQkq - 0 1");
    assert_eq!(evaluate(no_white_queen), -97);
}

#[test]
fn score_does_not_depend_on_the_side_to_move() {
    let white_to_move = board("4k3/8/8/3q4/8/2N5/8/4K3 w - - 0 1");
    let black_to_move = board("4k3/8/8/3q4/8/2N5/8/4K3 b - - 0 1");
    assert_eq!(evaluate(white_to_move), evaluate(black_to_move));
}

#[test]
fn content_needs_both_piece_and_owner() {
    assert_eq!(
        content_of(Some(PieceKind::Rook), Some(Side::Black)),
        Some(Occupant { kind: PieceKind::Rook, side: Side::Black })
    );
    assert_eq!(content_of(Some(PieceKind::Rook), None), None);
    assert_eq!(content_of(None, Some(Side::White)), None);
    assert_eq!(content_of(None, None), None);
}
