//! The player abstraction and the shared specification of fixed-depth
//! game-tree search.
//!
//! `spec_search` is the mathematical minimax value of a position: X maximizes
//! and O minimizes, a side without moves passes (which costs a ply), and
//! leaves are scored by the evaluator. All three search strategies (minimax,
//! alpha-beta, negamax) are proved to compute this one value, which is what
//! makes them interchangeable.

pub mod alphabeta;
pub mod human;
pub mod minimax;
pub mod negamax;
pub mod random;

pub use alphabeta::AlphaBeta;
pub use human::Human;
pub use minimax::Minimax;
pub use negamax::Negamax;
pub use random::RandomAI;

use vstd::prelude::*;

use vstd::math::max;
use vstd::math::min;

use crate::bits::bit_masks;
use crate::bits::lemma_bits_below_len;
use crate::bits::lemma_pop64_zero;
use crate::bits::lemma_popbits_le;
use crate::bits::pop64;
use crate::bits::single_bit;
use crate::board::Board;
use crate::eval::Evaluator;
use crate::eval::EVAL_BOUND;

verus! {

/// A player: chooses moves for one side, identified by its symbol.
pub trait Player: Sized {
    /// The symbol of the side this player plays: 'x' or 'o'.
    spec fn spec_symbol(&self) -> char;

    fn get_symbol(&self) -> (r: char)
        ensures
            r == self.spec_symbol(),
    ;

    /// Chooses a move for this player's side: a legal single-bit move
    /// whenever one exists, `None` exactly when the side must pass.
    fn get_move(&mut self, board: Board) -> (r: Option<u64>)
        ensures
            final(self).spec_symbol() == old(self).spec_symbol(),
            match r {
                Some(mv) => single_bit(mv) && board.spec_is_legal(
                    mv,
                    old(self).spec_symbol() == 'x',
                ),
                None => board.spec_legal_moves(old(self).spec_symbol() == 'x') == 0,
            },
    ;
}

/// `v` clamped into the window `[lo, hi]`.
pub open spec fn clamp(lo: int, hi: int, v: int) -> int {
    max(lo, min(hi, v))
}

/// The negamax sign convention: +1 for the side the evaluator favors (X),
/// -1 for the other.
pub open spec fn sign(x_turn: bool) -> int {
    if x_turn {
        1
    } else {
        -1
    }
}

/// The minimax value of `board` searched to `depth` plies with the side to
/// move given by `x_turn`, using `e` to score leaves. At depth zero or on a
/// terminal position the value is the static evaluation; a side without
/// moves passes, flipping the turn and consuming a ply; otherwise the value
/// is the best (max for X, min for O) over all legal moves of the value of
/// the resulting position one ply shallower.
pub open spec fn spec_search<E: Evaluator>(e: E, board: Board, depth: nat, x_turn: bool) -> int
    decreases depth, 65int,
{
    if depth == 0 || board.spec_is_over() {
        e.spec_eval(board)
    } else if board.spec_legal_moves(x_turn) == 0 {
        spec_search(e, board, (depth - 1) as nat, !x_turn)
    } else {
        proof {
            lemma_bits_below_len(board.spec_legal_moves(x_turn), 64);
            lemma_popbits_le(board.spec_legal_moves(x_turn), 64);
        }
        spec_best(e, board, depth, x_turn, bit_masks(board.spec_legal_moves(x_turn)).len() as int)
    }
}

/// The best value (max for X, min for O) over the first `i` legal moves of
/// the side to move, each child position searched one ply shallower.
pub open spec fn spec_best<E: Evaluator>(
    e: E,
    board: Board,
    depth: nat,
    x_turn: bool,
    i: int,
) -> int
    decreases depth, i,
    when 1 <= i <= 65 && depth >= 1
{
    let moves = bit_masks(board.spec_legal_moves(x_turn));
    let v = spec_search(e, board.spec_apply(moves[i - 1], x_turn), (depth - 1) as nat, !x_turn);
    if i == 1 {
        v
    } else if x_turn {
        max(v, spec_best(e, board, depth, x_turn, i - 1))
    } else {
        min(v, spec_best(e, board, depth, x_turn, i - 1))
    }
}

/// The move a full-width search keeps among the first `i` legal moves: the
/// first move whose child value is extremal, since a later move displaces an
/// earlier one only by a strictly better score.
pub open spec fn spec_choice<E: Evaluator>(
    e: E,
    board: Board,
    depth: nat,
    x_turn: bool,
    i: int,
) -> u64
    decreases depth, i,
    when 1 <= i <= 65 && depth >= 1
{
    let moves = bit_masks(board.spec_legal_moves(x_turn));
    if i == 1 {
        moves[0]
    } else {
        let v = spec_search(e, board.spec_apply(moves[i - 1], x_turn), (depth - 1) as nat, !x_turn);
        let prev = spec_best(e, board, depth, x_turn, i - 1);
        if (x_turn && v > prev) || (!x_turn && v < prev) {
            moves[i - 1]
        } else {
            spec_choice(e, board, depth, x_turn, i - 1)
        }
    }
}

/// The legal-move list of a side is exactly as long as its bit count, never
/// longer than 64, and empty exactly when the side has no legal move.
pub proof fn lemma_moves_len(board: Board, x_turn: bool)
    ensures
        bit_masks(board.spec_legal_moves(x_turn)).len() == pop64(board.spec_legal_moves(x_turn)),
        bit_masks(board.spec_legal_moves(x_turn)).len() <= 64,
        bit_masks(board.spec_legal_moves(x_turn)).len() == 0 <==> board.spec_legal_moves(x_turn)
            == 0,
{
    lemma_bits_below_len(board.spec_legal_moves(x_turn), 64);
    lemma_popbits_le(board.spec_legal_moves(x_turn), 64);
    lemma_pop64_zero(board.spec_legal_moves(x_turn));
}

/// The search value always lies within the evaluator's bound.
pub proof fn lemma_spec_search_bounded<E: Evaluator>(e: E, board: Board, depth: nat, x_turn: bool)
    ensures
        -(EVAL_BOUND as int) <= spec_search(e, board, depth, x_turn) <= EVAL_BOUND as int,
    decreases depth, 65int,
{
    if depth == 0 || board.spec_is_over() {
        e.lemma_eval_bounded(board);
    } else if board.spec_legal_moves(x_turn) == 0 {
        lemma_spec_search_bounded(e, board, (depth - 1) as nat, !x_turn);
    } else {
        lemma_moves_len(board, x_turn);
        let n = bit_masks(board.spec_legal_moves(x_turn)).len() as int;
        lemma_spec_best_bounded(e, board, depth, x_turn, n);
    }
}

/// The partial best value over a prefix of the move list is bounded too.
pub proof fn lemma_spec_best_bounded<E: Evaluator>(
    e: E,
    board: Board,
    depth: nat,
    x_turn: bool,
    i: int,
)
    requires
        depth >= 1,
        1 <= i <= bit_masks(board.spec_legal_moves(x_turn)).len() <= 64,
    ensures
        -(EVAL_BOUND as int) <= spec_best(e, board, depth, x_turn, i) <= EVAL_BOUND as int,
    decreases depth, i,
{
    let moves = bit_masks(board.spec_legal_moves(x_turn));
    lemma_spec_search_bounded(
        e,
        board.spec_apply(moves[i - 1], x_turn),
        (depth - 1) as nat,
        !x_turn,
    );
    if i > 1 {
        lemma_spec_best_bounded(e, board, depth, x_turn, i - 1);
    }
}

/// Extending the prefix of moves considered can only improve the best value:
/// it grows for the maximizing side and shrinks for the minimizing side.
pub proof fn lemma_spec_best_mono<E: Evaluator>(
    e: E,
    board: Board,
    depth: nat,
    x_turn: bool,
    i: int,
    j: int,
)
    requires
        depth >= 1,
        1 <= i <= j <= bit_masks(board.spec_legal_moves(x_turn)).len() <= 64,
    ensures
        x_turn ==> spec_best(e, board, depth, x_turn, i) <= spec_best(e, board, depth, x_turn, j),
        !x_turn ==> spec_best(e, board, depth, x_turn, j) <= spec_best(e, board, depth, x_turn, i),
    decreases j,
{
    if i < j {
        lemma_spec_best_mono(e, board, depth, x_turn, i, j - 1);
    }
}

/// Clamping a negated value mirrors clamping the value in the negated
/// window. This is the algebra that links negamax to minimax.
pub proof fn lemma_clamp_neg(lo: int, hi: int, v: int)
    requires
        lo <= hi,
    ensures
        clamp(lo, hi, -v) == -clamp(-hi, -lo, v),
{
}

/// Depth-zero base case: a search with no remaining depth returns exactly
/// the static evaluation, unchanged by any move logic.
pub proof fn lemma_search_depth_zero<E: Evaluator>(e: E, board: Board, x_turn: bool)
    ensures
        spec_search(e, board, 0, x_turn) == e.spec_eval(board),
{
}

/// Pass handling: when the side to move has no legal move but the game is
/// not over, the search recurses with the turn flipped and one ply consumed
/// instead of terminating the branch.
pub proof fn lemma_search_pass<E: Evaluator>(e: E, board: Board, depth: nat, x_turn: bool)
    requires
        depth >= 1,
        board.spec_legal_moves(x_turn) == 0,
        !board.spec_is_over(),
    ensures
        spec_search(e, board, depth, x_turn) == spec_search(e, board, (depth - 1) as nat, !x_turn),
{
}

} // verus!
