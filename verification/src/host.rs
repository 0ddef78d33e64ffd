//! The two questions a host can ask about a position given in
//! Forsyth-Edwards notation: what it is worth, and what to play.

use vstd::prelude::*;
use chess::Board;
use crate::error::EngineError;
use crate::evaluation::{evaluate, position_score};
use crate::position::{has_mover_king, mover_has_king};
use crate::rules::{
    build_board, built_position, consistent, move_notation, move_text, parsed_setup, read_setup,
};
use crate::search::{find_min_max_best_move, search_result};

verus! {

/// The position that a description stands for: the rules engine reads its
/// fields, and makes a position of them if they hold a king of the side to
/// move and the position passes its own tests.
pub open spec fn described_position(text: Seq<char>) -> Option<Board> {
    match parsed_setup(text) {
        Some(setup) => if mover_has_king(setup) {
            built_position(setup)
        } else {
            None
        },
        None => None,
    }
}

/// Reads a position from its description.
pub fn read_position(fen: &str) -> (read: Result<Board, EngineError>)
    ensures
        match read {
            Ok(board) => described_position(fen@) == Some(board) && consistent(board),
            Err(e) => e == EngineError::InvalidPosition && described_position(fen@) is None,
        },
{
    let setup = match read_setup(fen) {
        Ok(setup) => setup,
        Err(_) => {
            return Err(EngineError::InvalidPosition);
        },
    };
    if !has_mover_king(&setup) {
        return Err(EngineError::InvalidPosition);
    }
    match build_board(&setup) {
        Ok(board) => Ok(board),
        Err(_) => Err(EngineError::InvalidPosition),
    }
}

/// The static score of the position that `fen` describes.
pub fn get_eval(fen: String) -> (answer: Result<i32, EngineError>)
    ensures
        match described_position(fen@) {
            Some(board) => answer matches Ok(score) && score == position_score(board),
            None => answer == Err::<i32, EngineError>(EngineError::InvalidPosition),
        },
{
    match read_position(fen.as_str()) {
        Ok(board) => Ok(evaluate(board)),
        Err(e) => Err(e),
    }
}

/// The move to play in the position that `fen` describes, in coordinate
/// notation.
pub fn get_move(fen: String) -> (answer: Result<String, EngineError>)
    ensures
        match described_position(fen@) {
            Some(board) => match search_result(board) {
                Ok(m) => answer matches Ok(text) && text@ == move_notation(m),
                Err(e) => answer == Err::<String, EngineError>(e),
            },
            None => answer == Err::<String, EngineError>(EngineError::InvalidPosition),
        },
{
    match read_position(fen.as_str()) {
        Ok(board) => match find_min_max_best_move(board) {
            Ok(m) => Ok(move_text(m)),
            Err(e) => Err(e),
        },
        Err(e) => Err(e),
    }
}

} // verus!
