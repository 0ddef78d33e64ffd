//! The rules of chess, as the `chess` crate implements them. Nothing in this
//! file is proved: each function states what the crate's code does, and the
//! rest of the library is verified against these statements.

use vstd::prelude::*;
use chess::{Board, BoardBuilder, ChessMove};
use crate::pieces::{Occupant, PieceKind, Side};
use crate::position::{mover_has_king, playable};

verus! {

/// `chess::Board`: a position, with side to move, castling and en-passant state.
#[verifier::external_type_specification]
#[verifier::external_body]
pub struct ExBoard(chess::Board);

/// `chess::BoardBuilder`: what a position description says, before anything
/// has been made of it.
#[verifier::external_type_specification]
#[verifier::external_body]
pub struct ExBoardBuilder(chess::BoardBuilder);

/// `chess::ChessMove`: a source square, a destination square and a promotion piece.
#[verifier::external_type_specification]
#[verifier::external_body]
pub struct ExChessMove(chess::ChessMove);

/// `chess::Error`: why a position description was not accepted.
#[verifier::external_type_specification]
#[verifier::external_body]
pub struct ExError(chess::Error);

/// What `Board::is_sane` answers.
pub uninterp spec fn consistent(board: Board) -> bool;

/// What `Board::piece_on` answers for the square with the given index.
pub uninterp spec fn piece_at(board: Board, square: u8) -> Option<PieceKind>;

/// What `Board::color_on` answers for the square with the given index.
pub uninterp spec fn color_at(board: Board, square: u8) -> Option<Side>;

/// What `Board::side_to_move` answers.
pub uninterp spec fn turn_of(board: Board) -> Side;

/// The moves that `MoveGen::new_legal` yields for a position, in the order
/// in which it yields them.
pub uninterp spec fn legal_move_list(board: Board) -> Seq<ChessMove>;

/// The position that `Board::make_move_new` returns.
pub uninterp spec fn position_after(board: Board, m: ChessMove) -> Board;

/// What `BoardBuilder::from_str` reads from a description in Forsyth-Edwards
/// notation, if it accepts the description.
pub uninterp spec fn parsed_setup(fen: Seq<char>) -> Option<BoardBuilder>;

/// What a `BoardBuilder` holds on the square with the given index.
pub uninterp spec fn setup_at(setup: BoardBuilder, square: u8) -> Option<Occupant>;

/// What `BoardBuilder::get_side_to_move` answers.
pub uninterp spec fn setup_turn(setup: BoardBuilder) -> Side;

/// The position that `Board::try_from` makes of a `BoardBuilder`, if it
/// accepts it.
pub uninterp spec fn built_position(setup: BoardBuilder) -> Option<Board>;

/// The text that `ChessMove`'s `Display` writes: source square, destination
/// square and, for a promotion, the letter of the new piece.
pub uninterp spec fn move_notation(m: ChessMove) -> Seq<char>;

/// Calls `Board::is_sane`.
#[verifier::external_body]
pub(crate) fn is_sane(board: &Board) -> (sane: bool)
    ensures
        sane == consistent(*board),
{
    board.is_sane()
}

/// Calls `Board::piece_on` on the square with index `square`, taken from
/// `chess::ALL_SQUARES`, and gives the kind of piece found there.
#[verifier::external_body]
pub(crate) fn piece_on(board: &Board, square: u8) -> (found: Option<PieceKind>)
    requires
        square < 64,
    ensures
        found == piece_at(*board, square),
{
    match board.piece_on(chess::ALL_SQUARES[square as usize]) {
        None => None,
        Some(chess::Piece::Pawn) => Some(PieceKind::Pawn),
        Some(chess::Piece::Knight) => Some(PieceKind::Knight),
        Some(chess::Piece::Bishop) => Some(PieceKind::Bishop),
        Some(chess::Piece::Rook) => Some(PieceKind::Rook),
        Some(chess::Piece::Queen) => Some(PieceKind::Queen),
        Some(chess::Piece::King) => Some(PieceKind::King),
    }
}

/// Calls `Board::color_on` on the square with index `square`, taken from
/// `chess::ALL_SQUARES`, and gives the owner of the piece found there.
#[verifier::external_body]
pub(crate) fn color_on(board: &Board, square: u8) -> (found: Option<Side>)
    requires
        square < 64,
    ensures
        found == color_at(*board, square),
{
    match board.color_on(chess::ALL_SQUARES[square as usize]) {
        None => None,
        Some(chess::Color::White) => Some(Side::White),
        Some(chess::Color::Black) => Some(Side::Black),
    }
}

/// Calls `Board::side_to_move`.
#[verifier::external_body]
pub(crate) fn side_to_move(board: &Board) -> (side: Side)
    ensures
        side == turn_of(*board),
{
    match board.side_to_move() {
        chess::Color::White => Side::White,
        chess::Color::Black => Side::Black,
    }
}

/// Runs `MoveGen::new_legal` to its end and collects what it yields. The
/// generator reads the king's square from the bitboards, so the position
/// has to be consistent. It keeps one entry for each piece of the side to
/// move that can move, and up to two more for captures en passant, in a list
/// of 18 that it fills without looking at its length: the side to move may
/// have 16 pieces at most.
#[verifier::external_body]
pub(crate) fn legal_moves(board: &Board) -> (moves: Vec<ChessMove>)
    requires
        playable(*board),
    ensures
        moves@ == legal_move_list(*board),
{
    chess::MoveGen::new_legal(board).collect()
}

/// Calls `Board::make_move_new`, which panics when no piece stands on the
/// move's source square: the move has to be one of the position's legal
/// moves. Nothing is said of the position that comes out but that it is the
/// one the call returns.
#[verifier::external_body]
pub(crate) fn make_move(board: &Board, m: ChessMove) -> (child: Board)
    requires
        consistent(*board),
        legal_move_list(*board).contains(m),
    ensures
        child == position_after(*board, m),
{
    board.make_move_new(m)
}

/// Calls `BoardBuilder::from_str`, which reads the fields of a description
/// and tests nothing of the position they describe.
#[verifier::external_body]
pub(crate) fn read_setup(fen: &str) -> (read: Result<BoardBuilder, chess::Error>)
    ensures
        match read {
            Ok(setup) => parsed_setup(fen@) == Some(setup),
            Err(_) => parsed_setup(fen@) is None,
        },
{
    <BoardBuilder as std::str::FromStr>::from_str(fen)
}

/// Reads the square with index `square`, taken from `chess::ALL_SQUARES`,
/// through the `Index` impl of `BoardBuilder`.
#[verifier::external_body]
pub(crate) fn setup_square(setup: &BoardBuilder, square: u8) -> (found: Option<Occupant>)
    requires
        square < 64,
    ensures
        found == setup_at(*setup, square),
{
    match setup[chess::ALL_SQUARES[square as usize]] {
        None => None,
        Some((piece, color)) => Some(Occupant {
            kind: match piece {
                chess::Piece::Pawn => PieceKind::Pawn,
                chess::Piece::Knight => PieceKind::Knight,
                chess::Piece::Bishop => PieceKind::Bishop,
                chess::Piece::Rook => PieceKind::Rook,
                chess::Piece::Queen => PieceKind::Queen,
                chess::Piece::King => PieceKind::King,
            },
            side: match color { chess::Color::White => Side::White, chess::Color::Black => Side::Black },
        }),
    }
}

/// Calls `BoardBuilder::get_side_to_move`.
#[verifier::external_body]
pub(crate) fn setup_side(setup: &BoardBuilder) -> (side: Side)
    ensures
        side == setup_turn(*setup),
{
    match setup.get_side_to_move() {
        chess::Color::White => Side::White,
        chess::Color::Black => Side::Black,
    }
}

/// Calls `Board::try_from` on a `BoardBuilder`. The conversion looks up the
/// king of the side to move without asking whether there is one: the setup
/// has to hold that king. It returns a position only after `Board::is_sane`
/// has accepted it.
#[verifier::external_body]
pub(crate) fn build_board(setup: &BoardBuilder) -> (built: Result<Board, chess::Error>)
    requires
        mover_has_king(*setup),
    ensures
        match built {
            Ok(board) => built_position(*setup) == Some(board) && consistent(board),
            Err(_) => built_position(*setup) is None,
        },
{
    <Board as TryFrom<&BoardBuilder>>::try_from(setup)
}

/// Formats a move with its `Display` impl.
#[verifier::external_body]
pub(crate) fn move_text(m: ChessMove) -> (text: String)
    ensures
        text@ == move_notation(m),
{
    m.to_string()
}

} // verus!
