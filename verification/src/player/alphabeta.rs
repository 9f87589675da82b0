//! Alpha-beta pruned minimax search.
//!
//! The search carries an `(alpha, beta)` window and prunes siblings that
//! cannot affect the chosen score. Its contract states pruning correctness:
//! the returned score, clamped into the window, equals the true minimax
//! value (`spec_search`) clamped into the window — so with a full window the
//! score is exactly the minimax value, and pruning only changes how much of
//! the tree is visited.

use vstd::prelude::*;

use vstd::math::max;
use vstd::math::min;

use crate::bits::bit_masks;
use crate::bits::lemma_bits_below_elems;
use crate::bits::mask_to_moves;
use crate::bits::single_bit;
use crate::board::Board;
use crate::eval::Evaluator;
use crate::eval::EVAL_BOUND;
use crate::player::clamp;
use crate::player::lemma_moves_len;
use crate::player::lemma_spec_best_mono;
use crate::player::lemma_spec_search_bounded;
use crate::player::spec_best;
use crate::player::spec_search;
use crate::player::Player;

verus! {

/// An alpha-beta player: same chosen score as plain minimax on every
/// position, visiting fewer nodes.
pub struct AlphaBeta<E: Evaluator> {
    symbol: char,
    depth: u8,
    eval: E,
}

impl<E: Evaluator> AlphaBeta<E> {
    /// A search depth of zero could not choose a move at all.
    #[verifier::type_invariant]
    spec fn type_inv(self) -> bool {
        self.depth >= 1
    }

    /// The evaluator this player scores leaves with.
    pub closed spec fn evaluator(&self) -> E {
        self.eval
    }

    pub closed spec fn spec_depth(&self) -> u8 {
        self.depth
    }

    pub fn new(symbol: char, depth: u8, eval: E) -> (r: Self)
        requires
            depth >= 1,
        ensures
            r.spec_symbol() == symbol,
            r.spec_depth() == depth,
            r.evaluator() == eval,
    {
        Self { symbol, depth, eval }
    }

    /// Computes the minimax value of `board` at `depth` plies within the
    /// window `(alpha, beta)`: the returned score clamped into the window
    /// equals the minimax value clamped into the window, so a full window
    /// yields the exact value. When the side to move has a legal move, the
    /// returned move is legal; when the score lies strictly inside the
    /// window, the move achieves it.
    pub fn search(&self, board: Board, depth: u8, x_turn: bool, alpha: i32, beta: i32) -> (r: (
        i32,
        u64,
    ))
        requires
            alpha < beta,
        ensures
            -(EVAL_BOUND as int) <= r.0 as int <= EVAL_BOUND as int,
            clamp(alpha as int, beta as int, r.0 as int) == clamp(
                alpha as int,
                beta as int,
                spec_search(self.evaluator(), board, depth as nat, x_turn),
            ),
            alpha as int <= -(EVAL_BOUND as int) && beta as int >= EVAL_BOUND as int ==> r.0 as int
                == spec_search(self.evaluator(), board, depth as nat, x_turn),
            depth > 0 && !board.spec_is_over() && board.spec_legal_moves(x_turn) != 0 ==> (
            single_bit(r.1) && board.spec_is_legal(r.1, x_turn)),
            depth > 0 && !board.spec_is_over() && board.spec_legal_moves(x_turn) != 0
                && (alpha as int) < r.0 as int && (r.0 as int) < beta as int ==> spec_search(
                self.evaluator(),
                board.spec_apply(r.1, x_turn),
                (depth - 1) as nat,
                !x_turn,
            ) == r.0 as int,
        decreases depth,
    {
        proof {
            lemma_spec_search_bounded(self.evaluator(), board, depth as nat, x_turn);
        }
        if depth == 0 || board.is_over() {
            let v = self.eval.eval(board);
            proof {
                self.eval.lemma_eval_bounded(board);
            }
            return (v, 0);
        }
        let moves_mask = board.legal_moves(x_turn);
        if moves_mask == 0 {
            return self.search(board, depth - 1, !x_turn, alpha, beta);
        }
        let moves = mask_to_moves(moves_mask);
        let n = moves.len();
        proof {
            lemma_moves_len(board, x_turn);
            lemma_bits_below_elems(moves_mask, 64);
        }
        let ghost e = self.evaluator();
        let ghost a0: int = alpha as int;
        let ghost b0: int = beta as int;
        let mut alpha = alpha;
        let mut beta = beta;

        let mut best_score: i32 = if x_turn {
            i32::MIN
        } else {
            i32::MAX
        };
        let mut best_move: u64 = 0;

        if x_turn {
            let mut j: usize = 0;
            while j < n
                invariant_except_break
                    moves@ == bit_masks(board.spec_legal_moves(x_turn)),
                    n == moves@.len(),
                    1 <= n <= 64,
                    forall|t: int|
                        0 <= t < n ==> single_bit(#[trigger] moves@[t]) && board.spec_is_legal(
                            moves@[t],
                            x_turn,
                        ),
                    depth >= 1,
                    !board.spec_is_over(),
                    board.spec_legal_moves(x_turn) != 0,
                    e == self.evaluator(),
                    x_turn,
                    0 <= j <= n,
                    beta as int == b0,
                    alpha as int == max(a0, best_score as int),
                    alpha < beta,
                    j == 0 ==> best_score == i32::MIN,
                    j >= 1 ==> -(EVAL_BOUND as int) <= best_score as int <= EVAL_BOUND as int
                        && clamp(a0, b0, best_score as int) == clamp(
                        a0,
                        b0,
                        spec_best(e, board, depth as nat, x_turn, j as int),
                    ) && single_bit(best_move) && board.spec_is_legal(best_move, x_turn) && (a0 < best_score as int
                        && (best_score as int) < b0 ==> spec_search(
                        e,
                        board.spec_apply(best_move, x_turn),
                        (depth - 1) as nat,
                        !x_turn,
                    ) == best_score as int),
                ensures
                    -(EVAL_BOUND as int) <= best_score as int <= EVAL_BOUND as int,
                    single_bit(best_move) && board.spec_is_legal(best_move, x_turn),
                    clamp(a0, b0, best_score as int) == clamp(
                        a0,
                        b0,
                        spec_best(e, board, depth as nat, x_turn, n as int),
                    ),
                    a0 < best_score as int && (best_score as int) < b0 ==> spec_search(
                        e,
                        board.spec_apply(best_move, x_turn),
                        (depth - 1) as nat,
                        !x_turn,
                    ) == best_score as int,
                decreases n - j,
            {
                let mv = moves[j];
                let mut temp_board = board.clone();
                temp_board.apply_move(mv, x_turn);
                let (eval_score, _m) = self.search(temp_board, depth - 1, !x_turn, alpha, beta);
                if eval_score > alpha {
                    alpha = eval_score;
                }
                if eval_score > best_score {
                    best_move = mv;
                    best_score = eval_score;
                }
                j += 1;
                if beta <= alpha {
                    proof {
                        lemma_spec_best_mono(e, board, depth as nat, x_turn, j as int, n as int);
                    }
                    break ;
                }
            }
        } else {
            let mut j: usize = 0;
            while j < n
                invariant_except_break
                    moves@ == bit_masks(board.spec_legal_moves(x_turn)),
                    n == moves@.len(),
                    1 <= n <= 64,
                    forall|t: int|
                        0 <= t < n ==> single_bit(#[trigger] moves@[t]) && board.spec_is_legal(
                            moves@[t],
                            x_turn,
                        ),
                    depth >= 1,
                    !board.spec_is_over(),
                    board.spec_legal_moves(x_turn) != 0,
                    e == self.evaluator(),
                    !x_turn,
                    0 <= j <= n,
                    alpha as int == a0,
                    beta as int == min(b0, best_score as int),
                    alpha < beta,
                    j == 0 ==> best_score == i32::MAX,
                    j >= 1 ==> -(EVAL_BOUND as int) <= best_score as int <= EVAL_BOUND as int
                        && clamp(a0, b0, best_score as int) == clamp(
                        a0,
                        b0,
                        spec_best(e, board, depth as nat, x_turn, j as int),
                    ) && single_bit(best_move) && board.spec_is_legal(best_move, x_turn) && (a0 < best_score as int
                        && (best_score as int) < b0 ==> spec_search(
                        e,
                        board.spec_apply(best_move, x_turn),
                        (depth - 1) as nat,
                        !x_turn,
                    ) == best_score as int),
                ensures
                    -(EVAL_BOUND as int) <= best_score as int <= EVAL_BOUND as int,
                    single_bit(best_move) && board.spec_is_legal(best_move, x_turn),
                    clamp(a0, b0, best_score as int) == clamp(
                        a0,
                        b0,
                        spec_best(e, board, depth as nat, x_turn, n as int),
                    ),
                    a0 < best_score as int && (best_score as int) < b0 ==> spec_search(
                        e,
                        board.spec_apply(best_move, x_turn),
                        (depth - 1) as nat,
                        !x_turn,
                    ) == best_score as int,
                decreases n - j,
            {
                let mv = moves[j];
                let mut temp_board = board.clone();
                temp_board.apply_move(mv, x_turn);
                let (eval_score, _m) = self.search(temp_board, depth - 1, !x_turn, alpha, beta);
                if eval_score < beta {
                    beta = eval_score;
                }
                if eval_score < best_score {
                    best_move = mv;
                    best_score = eval_score;
                }
                j += 1;
                if beta <= alpha {
                    proof {
                        lemma_spec_best_mono(e, board, depth as nat, x_turn, j as int, n as int);
                    }
                    break ;
                }
            }
        }
        (best_score, best_move)
    }
}

impl<E: Evaluator> Player for AlphaBeta<E> {
    closed spec fn spec_symbol(&self) -> char {
        self.symbol
    }

    fn get_symbol(&self) -> (r: char) {
        self.symbol
    }

    fn get_move(&mut self, board: Board) -> (r: Option<u64>) {
        proof {
            use_type_invariant(&*self);
        }
        if board.num_moves(self.get_symbol() == 'x') == 0 {
            return None;
        }
        let (_score, mv) = self.search(
            board,
            self.depth,
            self.get_symbol() == 'x',
            i32::MIN,
            i32::MAX,
        );
        Some(mv)
    }
}

} // verus!
