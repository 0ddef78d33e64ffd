//! A fixed-depth chess move chooser: a static position evaluator and an
//! alpha-beta game-tree search. Move generation and move application are
//! supplied by the `chess` crate.

pub mod error;
pub mod pieces;
pub mod scoring;
pub mod rules;
pub mod position;
pub mod evaluation;
pub mod search;
pub mod host;

pub use crate::error::EngineError;
pub use crate::evaluation::evaluate;
pub use crate::host::{get_eval, get_move, read_position};
pub use crate::pieces::{Occupant, PieceKind, Side};
pub use crate::position::{count_pieces, is_playable};
pub use crate::search::{find_min_max_best_move, min_max, SEARCH_DEPTH};
