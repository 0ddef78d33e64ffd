use chess_minimax::pieces::{Occupant, PieceKind, Side};
use chess_minimax::scoring::{
    distance_from_center, distance_from_center_single, material_value, piece_position_weight,
    score_distance_from_center, score_square,
};

fn square(rank: u8, file: u8) -> u8 {
    rank * 8 + file
}

#[test]
fn distance_from_center_single_over_all_indices() {
    let expected = [3, 2, 1, 0, 0, 1, 2, 3];
    for n in 0..8 {
        assert_eq!(distance_from_center_single(n), expected[n as usize]);
    }
}

#[test]
fn distance_from_center_adds_rank_and_file() {
    assert_eq!(distance_from_center(0, 0), 6);
    assert_eq!(distance_from_center(7, 7), 6);
    assert_eq!(distance_from_center(3, 4), 0);
    assert_eq!(distance_from_center(1, 5), 3);
    assert_eq!(distance_from_center(6, 2), 3);
}

#[test]
fn score_distance_from_center_is_ten_minus_distance() {
    assert_eq!(score_distance_from_center(0, 0), 4);
    assert_eq!(score_distance_from_center(3, 3), 10);
    assert_eq!(score_distance_from_center(4, 4), 10);
    assert_eq!(score_distance_from_center(1, 5), 7);
    assert_eq!(score_distance_from_center(7, 0), 4);
}

#[test]
fn material_values() {
    assert_eq!(material_value(PieceKind::Pawn), 1);
    assert_eq!(material_value(PieceKind::Knight), 3);
    assert_eq!(material_value(PieceKind::Bishop), 3);
    assert_eq!(material_value(PieceKind::Rook), 5);
    assert_eq!(material_value(PieceKind::Queen), 9);
    assert_eq!(material_value(PieceKind::King), 100);
}

#[test]
fn pawn_weight_is_advancement_times_centrality() {
    // e4: rank 3, file 4, centrality 10.
    assert_eq!(piece_position_weight(PieceKind::Pawn, square(3, 4), Side::White), 30);
    assert_eq!(piece_position_weight(PieceKind::Pawn, square(3, 4), Side::Black), 40);
    // a2: rank 1, file 0, centrality 10 - (2 + 3) = 5.
    assert_eq!(piece_position_weight(PieceKind::Pawn, square(1, 0), Side::White), 5);
    assert_eq!(piece_position_weight(PieceKind::Pawn, square(1, 0), Side::Black), 30);
    // A pawn that has not advanced at all has no positional worth.
    assert_eq!(piece_position_weight(PieceKind::Pawn, square(0, 3), Side::White), 0);
    assert_eq!(piece_position_weight(PieceKind::Pawn, square(7, 3), Side::Black), 0);
    // The largest value stands on the last rank: 7 * 7.
    assert_eq!(piece_position_weight(PieceKind::Pawn, square(7, 3), Side::White), 49);
    assert_eq!(piece_position_weight(PieceKind::Pawn, square(0, 4), Side::Black), 49);
    assert_eq!(piece_position_weight(PieceKind::Pawn, square(6, 3), Side::White), 48);
    assert_eq!(piece_position_weight(PieceKind::Pawn, square(4, 4), Side::White), 40);
}

#[test]
fn king_weight_likes_the_back_rank_and_the_edge_files() {
    assert_eq!(piece_position_weight(PieceKind::King, square(0, 4), Side::White), 0);
    assert_eq!(piece_position_weight(PieceKind::King, square(0, 6), Side::White), 2);
    assert_eq!(piece_position_weight(PieceKind::King, square(0, 0), Side::White), 3);
    assert_eq!(piece_position_weight(PieceKind::King, square(7, 4), Side::White), -7);
    assert_eq!(piece_position_weight(PieceKind::King, square(7, 4), Side::Black), 0);
    assert_eq!(piece_position_weight(PieceKind::King, square(7, 7), Side::Black), 3);
    assert_eq!(piece_position_weight(PieceKind::King, square(2, 1), Side::Black), -3);
}

#[test]
fn knight_weight_is_minus_distance() {
    assert_eq!(piece_position_weight(PieceKind::Knight, square(0, 1), Side::White), -5);
    assert_eq!(piece_position_weight(PieceKind::Knight, square(0, 1), Side::Black), -5);
    assert_eq!(piece_position_weight(PieceKind::Knight, square(3, 3), Side::White), 0);
    assert_eq!(piece_position_weight(PieceKind::Knight, square(7, 7), Side::Black), -6);
}

#[test]
fn bishop_rook_queen_weight_is_centrality() {
    for kind in [PieceKind::Bishop, PieceKind::Rook, PieceKind::Queen] {
        for side in [Side::White, Side::Black] {
            assert_eq!(piece_position_weight(kind, square(0, 0), side), 4);
            assert_eq!(piece_position_weight(kind, square(0, 3), side), 7);
            assert_eq!(piece_position_weight(kind, square(4, 3), side), 10);
            assert_eq!(piece_position_weight(kind, square(5, 6), side), 7);
        }
    }
}

#[test]
fn weight_stays_within_its_bounds_on_every_square() {
    let kinds = [
        PieceKind::Pawn,
        PieceKind::Knight,
        PieceKind::Bishop,
        PieceKind::Rook,
        PieceKind::Queen,
        PieceKind::King,
    ];
    for sq in 0..64u8 {
        for kind in kinds {
            for side in [Side::White, Side::Black] {
                let w = piece_position_weight(kind, sq, side);
                assert!(-7 <= w && w <= 49);
            }
        }
    }
}

#[test]
fn score_square_signs_by_owner() {
    let white_queen = Occupant { kind: PieceKind::Queen, side: Side::White };
    let black_queen = Occupant { kind: PieceKind::Queen, side: Side::Black };
    assert_eq!(score_square(Some(white_queen), square(0, 3)), 97);
    assert_eq!(score_square(Some(black_queen), square(0, 3)), -97);
    assert_eq!(score_square(None, square(0, 3)), 0);
    let white_king = Occupant { kind: PieceKind::King, side: Side::White };
    assert_eq!(score_square(Some(white_king), square(0, 0)), 1003);
    let black_pawn = Occupant { kind: PieceKind::Pawn, side: Side::Black };
    assert_eq!(score_square(Some(black_pawn), square(6, 4)), -(10 + 8));
    let white_knight = Occupant { kind: PieceKind::Knight, side: Side::White };
    assert_eq!(score_square(Some(white_knight), square(2, 2)), 30 - 2);
}

#[test]
fn side_opponent_and_perspective() {
    assert_eq!(Side::White.opponent(), Side::Black);
    assert_eq!(Side::Black.opponent(), Side::White);
    assert!(Side::White.is_maximizing());
    assert!(!Side::Black.is_maximizing());
}
