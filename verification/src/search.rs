//! The game-tree search: minimax to a fixed depth, computed with alpha-beta
//! pruning, and the choice of a move at the root.

use vstd::prelude::*;
use chess::{Board, ChessMove};
use crate::error::EngineError;
use crate::evaluation::{evaluate, lemma_position_score_bounds, position_score};
use crate::position::{is_playable, playable};
use crate::rules::{legal_move_list, legal_moves, make_move, position_after, side_to_move, turn_of};

verus! {

/// How many plies below each of the root's children the search looks.
pub const SEARCH_DEPTH: u32 = 3;

/// The value of a node without children, which is also where a node's value
/// starts before its children are looked at: the lowest score for the
/// maximizing side, the highest for the minimizing side.
pub open spec fn worst_for(maximizing: bool) -> int {
    if maximizing {
        i32::MIN as int
    } else {
        i32::MAX as int
    }
}

/// The one of two scores that the side to move prefers.
pub open spec fn pick(maximizing: bool, a: int, b: int) -> int {
    if maximizing {
        if a >= b {
            a
        } else {
            b
        }
    } else {
        if a <= b {
            a
        } else {
            b
        }
    }
}

/// The minimax value of a position searched `depth` plies deep: the static
/// score at depth 0, else the best value among the positions that the legal
/// moves lead to, each searched one ply less deep from the other side's
/// point of view. A position without legal moves has the worst value for the
/// side to move.
pub open spec fn minimax(board: Board, depth: nat, maximizing: bool) -> int
    decreases depth, 0nat,
{
    if depth == 0 {
        position_score(board)
    } else {
        minimax_over(board, legal_move_list(board), (depth - 1) as nat, maximizing)
    }
}

/// The best value among the positions that `moves` lead to from `board`,
/// each searched `depth` plies deep.
pub open spec fn minimax_over(board: Board, moves: Seq<ChessMove>, depth: nat, maximizing: bool)
    -> int
    decreases depth, 1 + moves.len(),
{
    if moves.len() == 0 {
        worst_for(maximizing)
    } else {
        pick(
            maximizing,
            minimax_over(board, moves.drop_last(), depth, maximizing),
            minimax(position_after(board, moves.last()), depth, !maximizing),
        )
    }
}

/// Whether the rules engine can generate moves everywhere in the tree below
/// a position, `depth` plies deep.
pub open spec fn tree_playable(board: Board, depth: nat) -> bool
    decreases depth, 0nat,
{
    depth == 0 || (playable(board) && children_playable(
        board,
        legal_move_list(board),
        (depth - 1) as nat,
    ))
}

/// Whether the trees below the positions that `moves` lead to are playable.
pub open spec fn children_playable(board: Board, moves: Seq<ChessMove>, depth: nat) -> bool
    decreases depth, 1 + moves.len(),
{
    moves.len() == 0 || (children_playable(board, moves.drop_last(), depth) && tree_playable(
        position_after(board, moves.last()),
        depth,
    ))
}

/// The lower bound of the window after the node's value has reached `value`.
pub open spec fn raised_alpha(alpha: int, value: int, maximizing: bool) -> int {
    if maximizing && value > alpha {
        value
    } else {
        alpha
    }
}

/// The upper bound of the window after the node's value has reached `value`.
pub open spec fn lowered_beta(beta: int, value: int, maximizing: bool) -> int {
    if !maximizing && value < beta {
        value
    } else {
        beta
    }
}

/// Whether the window has closed once the node's value has reached `value`:
/// the remaining children are then not looked at.
pub open spec fn cut_off(value: int, alpha: int, beta: int, maximizing: bool) -> bool {
    lowered_beta(beta, value, maximizing) <= raised_alpha(alpha, value, maximizing)
}

/// What the alpha-beta search finds for a position searched `depth` plies
/// deep with the window from `alpha` to `beta`: a score, or nothing when it
/// comes to a position below depth 0 whose moves the rules engine cannot
/// generate.
pub open spec fn alpha_beta(board: Board, depth: nat, alpha: int, beta: int, maximizing: bool)
    -> Option<int>
    decreases depth, 0nat,
{
    if depth == 0 {
        Some(position_score(board))
    } else if !playable(board) {
        None
    } else {
        alpha_beta_over(
            board,
            legal_move_list(board),
            (depth - 1) as nat,
            alpha,
            beta,
            maximizing,
        )
    }
}

/// The value of a node after the alpha-beta search has gone through `moves`,
/// the first of its legal moves. The first child is always searched; each
/// later one only while the window is open, with the window narrowed by the
/// value reached so far. A child that cannot be searched ends the search of
/// the node without a value.
pub open spec fn alpha_beta_over(
    board: Board,
    moves: Seq<ChessMove>,
    depth: nat,
    alpha: int,
    beta: int,
    maximizing: bool,
) -> Option<int>
    decreases depth, 1 + moves.len(),
{
    if moves.len() == 0 {
        Some(worst_for(maximizing))
    } else {
        match alpha_beta_over(board, moves.drop_last(), depth, alpha, beta, maximizing) {
            None => None,
            Some(before) => if moves.len() > 1 && cut_off(before, alpha, beta, maximizing) {
                Some(before)
            } else {
                match alpha_beta(
                    position_after(board, moves.last()),
                    depth,
                    raised_alpha(alpha, before, maximizing),
                    lowered_beta(beta, before, maximizing),
                    !maximizing,
                ) {
                    None => None,
                    Some(found) => Some(pick(maximizing, before, found)),
                }
            },
        }
    }
}

/// Whether the search of a node is over after some of its children: it has
/// come to a child that cannot be searched, or the window has closed.
pub open spec fn stopped(value: Option<int>, alpha: int, beta: int, maximizing: bool) -> bool {
    match value {
        None => true,
        Some(v) => cut_off(v, alpha, beta, maximizing),
    }
}

/// How a value found with the window from `alpha` to `beta` relates to the
/// exact value: inside the window it is the exact value, at or below `alpha`
/// it is an upper bound of it, at or above `beta` a lower bound.
pub open spec fn agrees_within(found: int, exact: int, alpha: int, beta: int) -> bool {
    &&& found <= alpha ==> exact <= found
    &&& alpha < found < beta ==> exact == found
    &&& beta <= found ==> found <= exact
}

/// Minimax values are scores that fit an `i32`.
pub proof fn lemma_minimax_range(board: Board, depth: nat, maximizing: bool)
    ensures
        i32::MIN <= minimax(board, depth, maximizing) <= i32::MAX,
    decreases depth, 0nat,
{
    if depth == 0 {
        lemma_position_score_bounds(board);
    } else {
        lemma_minimax_over_range(board, legal_move_list(board), (depth - 1) as nat, maximizing);
    }
}

/// The best value among the children fits an `i32`.
pub proof fn lemma_minimax_over_range(
    board: Board,
    moves: Seq<ChessMove>,
    depth: nat,
    maximizing: bool,
)
    ensures
        i32::MIN <= minimax_over(board, moves, depth, maximizing) <= i32::MAX,
    decreases depth, 1 + moves.len(),
{
    if moves.len() > 0 {
        lemma_minimax_over_range(board, moves.drop_last(), depth, maximizing);
        lemma_minimax_range(position_after(board, moves.last()), depth, !maximizing);
    }
}

/// The window stays open down the tree: when a node was entered with an
/// open window, every child that it searches is handed an open window too.
pub proof fn lemma_searched_child_has_open_window(
    board: Board,
    moves: Seq<ChessMove>,
    depth: nat,
    alpha: int,
    beta: int,
    maximizing: bool,
)
    requires
        i32::MIN <= alpha < beta <= i32::MAX,
        moves.len() > 0,
        alpha_beta_over(board, moves.drop_last(), depth, alpha, beta, maximizing) is Some,
        moves.len() > 1 ==> !stopped(
            alpha_beta_over(board, moves.drop_last(), depth, alpha, beta, maximizing),
            alpha,
            beta,
            maximizing,
        ),
    ensures
        ({
            let before = alpha_beta_over(
                board,
                moves.drop_last(),
                depth,
                alpha,
                beta,
                maximizing,
            )->0;
            raised_alpha(alpha, before, maximizing) < lowered_beta(beta, before, maximizing)
        }),
{
    if moves.len() == 1 {
        assert(moves.drop_last().len() == 0);
    }
}

/// Pruning is sound: with an open window, what the alpha-beta search finds
/// agrees with the minimax value within the window.
pub proof fn lemma_alpha_beta_agrees(
    board: Board,
    depth: nat,
    alpha: int,
    beta: int,
    maximizing: bool,
)
    requires
        i32::MIN <= alpha < beta <= i32::MAX,
    ensures
        alpha_beta(board, depth, alpha, beta, maximizing) matches Some(found) ==> agrees_within(
            found,
            minimax(board, depth, maximizing),
            alpha,
            beta,
        ),
    decreases depth, 0nat,
{
    if depth > 0 && playable(board) {
        lemma_alpha_beta_over_agrees(
            board,
            legal_move_list(board),
            (depth - 1) as nat,
            alpha,
            beta,
            maximizing,
        );
    }
}

/// Pruning is sound over any number of the first children of a node.
pub proof fn lemma_alpha_beta_over_agrees(
    board: Board,
    moves: Seq<ChessMove>,
    depth: nat,
    alpha: int,
    beta: int,
    maximizing: bool,
)
    requires
        i32::MIN <= alpha < beta <= i32::MAX,
    ensures
        alpha_beta_over(board, moves, depth, alpha, beta, maximizing) matches Some(found)
            ==> agrees_within(found, minimax_over(board, moves, depth, maximizing), alpha, beta),
    decreases depth, 1 + moves.len(),
{
    if moves.len() > 0 {
        let front = moves.drop_last();
        let child = position_after(board, moves.last());
        lemma_alpha_beta_over_agrees(board, front, depth, alpha, beta, maximizing);
        if let Some(before) = alpha_beta_over(board, front, depth, alpha, beta, maximizing) {
            if moves.len() > 1 && cut_off(before, alpha, beta, maximizing) {
            } else {
                let lo = raised_alpha(alpha, before, maximizing);
                let hi = lowered_beta(beta, before, maximizing);
                lemma_searched_child_has_open_window(board, moves, depth, alpha, beta, maximizing);
                lemma_alpha_beta_agrees(child, depth, lo, hi, !maximizing);
            }
        }
    }
}

/// Pruning never changes the result: searched with the full window, the
/// alpha-beta search finds the minimax value of the position.
pub proof fn lemma_full_window_is_minimax(board: Board, depth: nat, maximizing: bool)
    ensures
        alpha_beta(board, depth, i32::MIN as int, i32::MAX as int, maximizing) matches Some(found)
            ==> found == minimax(board, depth, maximizing),
{
    lemma_alpha_beta_agrees(board, depth, i32::MIN as int, i32::MAX as int, maximizing);
    lemma_minimax_range(board, depth, maximizing);
}

/// The search finds a value wherever the rules engine can generate moves
/// throughout the tree.
pub proof fn lemma_playable_tree_is_searched(
    board: Board,
    depth: nat,
    alpha: int,
    beta: int,
    maximizing: bool,
)
    requires
        tree_playable(board, depth),
    ensures
        alpha_beta(board, depth, alpha, beta, maximizing) is Some,
    decreases depth, 0nat,
{
    if depth > 0 {
        lemma_playable_children_are_searched(
            board,
            legal_move_list(board),
            (depth - 1) as nat,
            alpha,
            beta,
            maximizing,
        );
    }
}

/// The search finds a value over any number of the first children of a
/// node when the trees below them are playable.
pub proof fn lemma_playable_children_are_searched(
    board: Board,
    moves: Seq<ChessMove>,
    depth: nat,
    alpha: int,
    beta: int,
    maximizing: bool,
)
    requires
        children_playable(board, moves, depth),
    ensures
        alpha_beta_over(board, moves, depth, alpha, beta, maximizing) is Some,
    decreases depth, 1 + moves.len(),
{
    if moves.len() > 0 {
        lemma_playable_children_are_searched(
            board,
            moves.drop_last(),
            depth,
            alpha,
            beta,
            maximizing,
        );
        let before = alpha_beta_over(board, moves.drop_last(), depth, alpha, beta, maximizing)->0;
        lemma_playable_tree_is_searched(
            position_after(board, moves.last()),
            depth,
            raised_alpha(alpha, before, maximizing),
            lowered_beta(beta, before, maximizing),
            !maximizing,
        );
    }
}

/// At depth 0 the search is the static evaluation, whatever the position,
/// whatever the window and whoever is to move.
pub proof fn lemma_depth_zero_is_evaluation(
    board: Board,
    alpha: int,
    beta: int,
    maximizing: bool,
)
    ensures
        alpha_beta(board, 0, alpha, beta, maximizing) == Some(position_score(board)),
        minimax(board, 0, maximizing) == position_score(board),
{
}

/// Once the search of a node has stopped, the children that follow change
/// nothing.
pub proof fn lemma_stop_is_final(
    board: Board,
    moves: Seq<ChessMove>,
    seen: int,
    upto: int,
    depth: nat,
    alpha: int,
    beta: int,
    maximizing: bool,
)
    requires
        1 <= seen <= upto <= moves.len(),
        stopped(
            alpha_beta_over(board, moves.take(seen), depth, alpha, beta, maximizing),
            alpha,
            beta,
            maximizing,
        ),
    ensures
        alpha_beta_over(board, moves.take(upto), depth, alpha, beta, maximizing)
            == alpha_beta_over(board, moves.take(seen), depth, alpha, beta, maximizing),
    decreases upto - seen,
{
    if upto > seen {
        lemma_stop_is_final(board, moves, seen, upto - 1, depth, alpha, beta, maximizing);
        assert(moves.take(upto).drop_last() =~= moves.take(upto - 1));
    }
}

/// Searches `board` to `depth` plies with alpha-beta pruning and returns its
/// score from White's point of view. `is_maximizing` tells whether the side
/// to move prefers higher scores. Below depth 0 every position that the
/// search comes to is looked at before its moves are generated; the search
/// fails on the first whose moves the rules engine cannot generate.
pub fn min_max(board: Board, depth: u32, alpha: i32, beta: i32, is_maximizing: bool) -> (found:
    Result<i32, EngineError>)
    ensures
        match found {
            Ok(score) => alpha_beta(
                board,
                depth as nat,
                alpha as int,
                beta as int,
                is_maximizing,
            ) == Some(score as int),
            Err(e) => e == EngineError::InvalidPosition && alpha_beta(
                board,
                depth as nat,
                alpha as int,
                beta as int,
                is_maximizing,
            ) is None,
        },
        depth == 0 ==> found == Ok::<i32, EngineError>(position_score(board) as i32),
        tree_playable(board, depth as nat) ==> found is Ok,
        found matches Ok(score) ==> alpha < beta ==> agrees_within(
            score as int,
            minimax(board, depth as nat, is_maximizing),
            alpha as int,
            beta as int,
        ),
        found matches Ok(score) ==> alpha == i32::MIN && beta == i32::MAX ==> score == minimax(
            board,
            depth as nat,
            is_maximizing,
        ),
    decreases depth,
{
    proof {
        if alpha < beta {
            lemma_alpha_beta_agrees(board, depth as nat, alpha as int, beta as int, is_maximizing);
        }
        lemma_minimax_range(board, depth as nat, is_maximizing);
        if tree_playable(board, depth as nat) {
            lemma_playable_tree_is_searched(
                board,
                depth as nat,
                alpha as int,
                beta as int,
                is_maximizing,
            );
        }
    }
    if depth == 0 {
        return Ok(evaluate(board));
    }
    if !is_playable(&board) {
        return Err(EngineError::InvalidPosition);
    }
    let moves = legal_moves(&board);
    let count: usize = moves.len();
    let ghost below = (depth - 1) as nat;
    let mut value: i32 = if is_maximizing {
        i32::MIN
    } else {
        i32::MAX
    };
    let mut lo: i32 = alpha;
    let mut hi: i32 = beta;
    let mut i: usize = 0;
    assert(moves@.take(count as int) =~= moves@);
    while i < count
        invariant_except_break
            i >= 1 ==> lo < hi,
        invariant
            depth > 0,
            below == (depth - 1) as nat,
            playable(board),
            tree_playable(board, depth as nat) ==> alpha_beta(
                board,
                depth as nat,
                alpha as int,
                beta as int,
                is_maximizing,
            ) is Some,
            moves@ == legal_move_list(board),
            count == moves.len(),
            moves@.take(count as int) == moves@,
            i <= count,
            alpha_beta_over(
                board,
                moves@.take(i as int),
                below,
                alpha as int,
                beta as int,
                is_maximizing,
            ) == Some(value as int),
            lo == raised_alpha(alpha as int, value as int, is_maximizing),
            hi == lowered_beta(beta as int, value as int, is_maximizing),
        ensures
            alpha_beta_over(board, moves@, below, alpha as int, beta as int, is_maximizing)
                == Some(value as int),
        decreases count - i,
    {
        let m = moves[i];
        let child = make_move(&board, m);
        proof {
            let seen = moves@.take(i + 1);
            assert(seen.drop_last() =~= moves@.take(i as int));
            assert(seen.last() == m);
        }
        let eval: i32 = match min_max(child, depth - 1, lo, hi, !is_maximizing) {
            Ok(eval) => eval,
            Err(e) => {
                proof {
                    lemma_stop_is_final(
                        board,
                        moves@,
                        i + 1,
                        count as int,
                        below,
                        alpha as int,
                        beta as int,
                        is_maximizing,
                    );
                }
                return Err(e);
            },
        };
        if is_maximizing {
            if eval > value {
                value = eval;
            }
            if value > lo {
                lo = value;
            }
        } else {
            if eval < value {
                value = eval;
            }
            if value < hi {
                hi = value;
            }
        }
        i = i + 1;
        if hi <= lo {
            proof {
                lemma_stop_is_final(
                    board,
                    moves@,
                    i as int,
                    count as int,
                    below,
                    alpha as int,
                    beta as int,
                    is_maximizing,
                );
            }
            break;
        }
    }
    Ok(value)
}

/// Whether the side to move likes score `a` strictly better than score `b`.
pub open spec fn prefers(maximizing: bool, a: int, b: int) -> bool {
    if maximizing {
        a > b
    } else {
        a < b
    }
}

/// The score of a move at the root: the minimax value of the position it
/// leads to, searched `SEARCH_DEPTH` plies deep from the opponent's point of
/// view.
pub open spec fn root_score(board: Board, m: ChessMove) -> int {
    minimax(position_after(board, m), SEARCH_DEPTH as nat, !turn_of(board).maximizes())
}

/// What the search finds for a move at the root.
pub open spec fn root_search(board: Board, m: ChessMove) -> Option<int> {
    alpha_beta(
        position_after(board, m),
        SEARCH_DEPTH as nat,
        i32::MIN as int,
        i32::MAX as int,
        !turn_of(board).maximizes(),
    )
}

/// Whether the search finds a score for every legal move of a position.
pub open spec fn roots_searched(board: Board) -> bool {
    forall|i: int|
        0 <= i < legal_move_list(board).len() ==> (#[trigger] root_search(
            board,
            legal_move_list(board)[i],
        )) is Some
}

/// The index in `moves` of the move that the side to move chooses: a later
/// move replaces an earlier one only when its score is strictly better.
pub open spec fn choice_among(board: Board, moves: Seq<ChessMove>) -> int
    decreases moves.len(),
{
    if moves.len() <= 1 {
        0
    } else {
        let before = choice_among(board, moves.drop_last());
        if prefers(
            turn_of(board).maximizes(),
            root_score(board, moves.last()),
            root_score(board, moves[before]),
        ) {
            moves.len() - 1
        } else {
            before
        }
    }
}

/// The move that the side to move chooses in a position, if it has any.
pub open spec fn best_move(board: Board) -> Option<ChessMove> {
    let moves = legal_move_list(board);
    if moves.len() == 0 {
        None
    } else {
        Some(moves[choice_among(board, moves)])
    }
}

/// What the choice of a move comes to in a position: the chosen move, or
/// why there is none. The rules engine has to be able to generate the moves
/// of the position and of every position that the search comes to.
pub open spec fn search_result(board: Board) -> Result<ChessMove, EngineError> {
    if !playable(board) || !roots_searched(board) {
        Err(EngineError::InvalidPosition)
    } else {
        match best_move(board) {
            Some(m) => Ok(m),
            None => Err(EngineError::NoLegalMove),
        }
    }
}

/// The chosen move is the first among those with the best score: every
/// earlier move scores strictly worse, and no later move scores better.
pub proof fn lemma_choice_is_first_best(board: Board, moves: Seq<ChessMove>)
    requires
        moves.len() > 0,
    ensures
        0 <= choice_among(board, moves) < moves.len(),
        forall|j: int|
            0 <= j < choice_among(board, moves) ==> prefers(
                turn_of(board).maximizes(),
                root_score(board, moves[choice_among(board, moves)]),
                #[trigger] root_score(board, moves[j]),
            ),
        forall|j: int|
            choice_among(board, moves) < j < moves.len() ==> !prefers(
                turn_of(board).maximizes(),
                #[trigger] root_score(board, moves[j]),
                root_score(board, moves[choice_among(board, moves)]),
            ),
    decreases moves.len(),
{
    if moves.len() > 1 {
        let front = moves.drop_last();
        lemma_choice_is_first_best(board, front);
        assert(forall|j: int| 0 <= j < front.len() ==> front[j] == moves[j]);
    }
}

/// The move chosen at the root is one of the legal moves of the position,
/// and a position has no chosen move exactly when it has no legal move.
pub proof fn lemma_best_move_is_legal(board: Board)
    ensures
        best_move(board) is None <==> legal_move_list(board).len() == 0,
        best_move(board) matches Some(m) ==> legal_move_list(board).contains(m),
{
    let moves = legal_move_list(board);
    if moves.len() > 0 {
        lemma_choice_is_first_best(board, moves);
    }
}

/// The search finds a score for every legal move of a position when the
/// rules engine can generate moves throughout the trees below them.
pub proof fn lemma_playable_roots_are_searched(board: Board)
    requires
        children_playable(board, legal_move_list(board), SEARCH_DEPTH as nat),
    ensures
        roots_searched(board),
{
    let moves = legal_move_list(board);
    assert forall|i: int| 0 <= i < moves.len() implies (#[trigger] root_search(
        board,
        moves[i],
    )) is Some by {
        lemma_child_tree_playable(board, moves, SEARCH_DEPTH as nat, i);
        lemma_playable_tree_is_searched(
            position_after(board, moves[i]),
            SEARCH_DEPTH as nat,
            i32::MIN as int,
            i32::MAX as int,
            !turn_of(board).maximizes(),
        );
    }
}

/// When the trees below all of `moves` are playable, so is the tree below
/// each of them.
pub proof fn lemma_child_tree_playable(board: Board, moves: Seq<ChessMove>, depth: nat, i: int)
    requires
        children_playable(board, moves, depth),
        0 <= i < moves.len(),
    ensures
        tree_playable(position_after(board, moves[i]), depth),
    decreases moves.len(),
{
    if i < moves.len() - 1 {
        lemma_child_tree_playable(board, moves.drop_last(), depth, i);
    }
}

/// Chooses a move for the side to move: each legal move is scored by a
/// search of the position it leads to, and the first move with the best
/// score wins. Fails with `NoLegalMove` when the side to move has no legal
/// move, and with `InvalidPosition` when the rules engine cannot generate
/// the moves of the position or of one that the search comes to.
pub fn find_min_max_best_move(board: Board) -> (found: Result<ChessMove, EngineError>)
    ensures
        found == search_result(board),
        found matches Ok(m) ==> legal_move_list(board).contains(m),
        found matches Err(EngineError::NoLegalMove) <==> playable(board) && legal_move_list(
            board,
        ).len() == 0,
        playable(board) && children_playable(
            board,
            legal_move_list(board),
            SEARCH_DEPTH as nat,
        ) ==> !(found matches Err(EngineError::InvalidPosition)),
{
    if !is_playable(&board) {
        return Err(EngineError::InvalidPosition);
    }
    proof {
        if children_playable(board, legal_move_list(board), SEARCH_DEPTH as nat) {
            lemma_playable_roots_are_searched(board);
        }
    }
    let current_color = side_to_move(&board);
    let is_maximizing: bool = current_color.is_maximizing();
    let moves = legal_moves(&board);
    let count: usize = moves.len();
    let mut best_move: Option<ChessMove> = None;
    let mut best_score: i32 = if is_maximizing {
        i32::MIN
    } else {
        i32::MAX
    };
    let mut i: usize = 0;
    assert(moves@.take(count as int) =~= moves@);
    while i < count
        invariant
            playable(board),
            moves@ == legal_move_list(board),
            count == moves.len(),
            is_maximizing == turn_of(board).maximizes(),
            children_playable(board, legal_move_list(board), SEARCH_DEPTH as nat)
                ==> roots_searched(board),
            i <= count,
            forall|j: int| 0 <= j < i ==> (#[trigger] root_search(board, moves@[j])) is Some,
            i == 0 ==> best_move is None,
            i >= 1 ==> 0 <= choice_among(board, moves@.take(i as int)) < i,
            i >= 1 ==> best_move == Some(moves@[choice_among(board, moves@.take(i as int))]),
            i >= 1 ==> best_score == root_score(
                board,
                moves@[choice_among(board, moves@.take(i as int))],
            ),
        decreases count - i,
    {
        let m = moves[i];
        let child = make_move(&board, m);
        let score: i32 = match min_max(child, SEARCH_DEPTH, i32::MIN, i32::MAX, !is_maximizing) {
            Ok(score) => score,
            Err(e) => {
                assert(root_search(board, legal_move_list(board)[i as int]) is None);
                return Err(e);
            },
        };
        let improves: bool = if is_maximizing {
            score > best_score
        } else {
            score < best_score
        };
        proof {
            let seen = moves@.take(i + 1);
            assert(seen.drop_last() =~= moves@.take(i as int));
            assert(seen.last() == m);
            if i >= 1 {
                let before = choice_among(board, moves@.take(i as int));
                assert(seen[before] == moves@[before]);
            }
        }
        if best_move.is_none() || improves {
            best_score = score;
            best_move = Some(m);
        }
        i = i + 1;
    }
    proof {
        lemma_best_move_is_legal(board);
    }
    match best_move {
        Some(m) => Ok(m),
        None => Err(EngineError::NoLegalMove),
    }
}

} // verus!
