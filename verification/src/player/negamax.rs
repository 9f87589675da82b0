//! Negamax search with alpha-beta pruning, using the score-negation
//! symmetry between the two sides.
//!
//! Every node maximizes the negation of its children's scores; the `color`
//! multiplier (+1 when X is to move, -1 otherwise) is applied only at leaf
//! evaluations. The contract ties the returned score to `sign(x_turn)` times
//! the minimax value (`spec_search`), clamped into the window, so negamax
//! selects scores equivalent to alpha-beta on every position.

use vstd::prelude::*;

use vstd::math::max;

use crate::bits::bit_masks;
use crate::bits::single_bit;
use crate::board::Board;
use crate::eval::Evaluator;
use crate::eval::EVAL_BOUND;
use crate::player::clamp;
use crate::player::lemma_clamp_neg;
use crate::player::lemma_moves_len;
use crate::player::lemma_spec_best_mono;
use crate::player::lemma_spec_search_bounded;
use crate::player::sign;
use crate::player::spec_best;
use crate::player::spec_search;
use crate::player::Player;

verus! {

/// A negamax player: selects scores equivalent to alpha-beta, with a single
/// sign-flipped convention instead of separate max/min branches.
pub struct Negamax<E: Evaluator> {
    symbol: char,
    depth: u8,
    eval: E,
}

impl<E: Evaluator> Negamax<E> {
    /// A search depth of zero could not choose a move at all.
    #[verifier::type_invariant]
    spec fn type_inv(self) -> bool {
        self.depth >= 1
    }

    /// The evaluator this player scores leaves with.
    pub closed spec fn evaluator(&self) -> E {
        self.eval
    }

    pub closed spec fn spec_depth(&self) -> u8 {
        self.depth
    }

    pub fn new(symbol: char, depth: u8, eval: E) -> (r: Self)
        requires
            depth >= 1,
        ensures
            r.spec_symbol() == symbol,
            r.spec_depth() == depth,
            r.evaluator() == eval,
    {
        Self { symbol, depth, eval }
    }

    /// Computes `sign(x_turn)` times the minimax value of `board` at `depth`
    /// plies, within the window `(alpha, beta)`: the returned score clamped
    /// into the window equals that signed value clamped into the window.
    /// When the side to move has a legal move, the returned move is legal;
    /// when the score lies strictly inside the window, the move achieves the
    /// minimax value.
    pub fn search(&self, board: Board, depth: u8, x_turn: bool, color: i8, alpha: i32, beta: i32)
        -> (r: (i32, u64))
        requires
            color as int == sign(x_turn),
            i32::MIN + 1 <= alpha as int,
            alpha < beta,
        ensures
            -(EVAL_BOUND as int) <= r.0 as int <= EVAL_BOUND as int,
            clamp(alpha as int, beta as int, r.0 as int) == clamp(
                alpha as int,
                beta as int,
                sign(x_turn) * spec_search(self.evaluator(), board, depth as nat, x_turn),
            ),
            alpha as int <= -(EVAL_BOUND as int) && beta as int >= EVAL_BOUND as int ==> r.0 as int
                == sign(x_turn) * spec_search(self.evaluator(), board, depth as nat, x_turn),
            depth > 0 && !board.spec_is_over() && board.spec_legal_moves(x_turn) != 0 ==> (
            single_bit(r.1) && board.spec_is_legal(r.1, x_turn)),
            depth > 0 && !board.spec_is_over() && board.spec_legal_moves(x_turn) != 0 && (
            alpha as int) < r.0 as int && (r.0 as int) < beta as int ==> spec_search(
                self.evaluator(),
                board.spec_apply(r.1, x_turn),
                (depth - 1) as nat,
                !x_turn,
            ) == sign(x_turn) * r.0 as int,
        decreases depth,
    {
        proof {
            lemma_spec_search_bounded(self.evaluator(), board, depth as nat, x_turn);
        }
        if depth == 0 || board.is_over() {
            let v = self.eval.eval(board);
            proof {
                self.eval.lemma_eval_bounded(board);
            }
            return (color as i32 * v, 0);
        }
        if board.num_moves(x_turn) == 0 {
            let (eval_score, mv) = self.search(board, depth - 1, !x_turn, -color, -beta, -alpha);
            proof {
                lemma_clamp_neg(alpha as int, beta as int, eval_score as int);
                lemma_clamp_neg(
                    alpha as int,
                    beta as int,
                    sign(!x_turn) * spec_search(
                        self.evaluator(),
                        board,
                        (depth - 1) as nat,
                        !x_turn,
                    ),
                );
            }
            return (-eval_score, mv);
        }
        let moves = board.moves_iter(x_turn);
        let n = moves.len();
        proof {
            lemma_moves_len(board, x_turn);
        }
        let ghost e = self.evaluator();
        let ghost a0: int = alpha as int;
        let ghost b0: int = beta as int;
        let mut alpha = alpha;

        let mut value: i32 = i32::MIN + 1;
        let mut best_move: u64 = 0;

        let mut j: usize = 0;
        while j < n
            invariant_except_break
                moves@ == bit_masks(board.spec_legal_moves(x_turn)),
                n == moves@.len(),
                1 <= n <= 64,
                forall|t: int|
                    0 <= t < n ==> single_bit(#[trigger] moves@[t]) && board.spec_is_legal(
                        moves@[t],
                        x_turn,
                    ),
                depth >= 1,
                !board.spec_is_over(),
                board.spec_legal_moves(x_turn) != 0,
                e == self.evaluator(),
                color as int == sign(x_turn),
                beta as int == b0,
                i32::MIN + 1 <= a0,
                0 <= j <= n,
                alpha as int == max(a0, value as int),
                alpha < beta,
                j == 0 ==> value == i32::MIN + 1,
                j >= 1 ==> -(EVAL_BOUND as int) <= value as int <= EVAL_BOUND as int && clamp(
                    a0,
                    b0,
                    value as int,
                ) == clamp(a0, b0, sign(x_turn) * spec_best(e, board, depth as nat, x_turn, j as int))
                    && single_bit(best_move) && board.spec_is_legal(best_move, x_turn) && (a0
                    < value as int && (value as int) < b0 ==> spec_search(
                    e,
                    board.spec_apply(best_move, x_turn),
                    (depth - 1) as nat,
                    !x_turn,
                ) == sign(x_turn) * value as int),
            ensures
                -(EVAL_BOUND as int) <= value as int <= EVAL_BOUND as int,
                single_bit(best_move) && board.spec_is_legal(best_move, x_turn),
                clamp(a0, b0, value as int) == clamp(
                    a0,
                    b0,
                    sign(x_turn) * spec_best(e, board, depth as nat, x_turn, n as int),
                ),
                a0 < value as int && (value as int) < b0 ==> spec_search(
                    e,
                    board.spec_apply(best_move, x_turn),
                    (depth - 1) as nat,
                    !x_turn,
                ) == sign(x_turn) * value as int,
            decreases n - j,
        {
            let mv = moves[j];
            let mut temp_board = board.clone();
            temp_board.apply_move(mv, x_turn);
            let (eval_score, _m) = self.search(temp_board, depth - 1, !x_turn, -color, -beta, -alpha);
            proof {
                lemma_clamp_neg(alpha as int, b0, eval_score as int);
                lemma_clamp_neg(
                    alpha as int,
                    b0,
                    sign(!x_turn) * spec_search(
                        e,
                        board.spec_apply(moves@[j as int], x_turn),
                        (depth - 1) as nat,
                        !x_turn,
                    ),
                );
            }
            if -eval_score > value {
                value = -eval_score;
                best_move = mv;
            }
            if value > alpha {
                alpha = value;
            }
            j += 1;
            if alpha >= beta {
                proof {
                    lemma_spec_best_mono(e, board, depth as nat, x_turn, j as int, n as int);
                }
                break ;
            }
        }
        (value, best_move)
    }
}

impl<E: Evaluator> Player for Negamax<E> {
    closed spec fn spec_symbol(&self) -> char {
        self.symbol
    }

    fn get_symbol(&self) -> (r: char) {
        self.symbol
    }

    fn get_move(&mut self, board: Board) -> (r: Option<u64>) {
        proof {
            use_type_invariant(&*self);
        }
        if board.num_moves(self.get_symbol() == 'x') == 0 {
            return None;
        }
        let x_turn = self.get_symbol() == 'x';
        let color: i8 = if x_turn {
            1
        } else {
            -1
        };
        let (_score, mv) = self.search(board, self.depth, x_turn, color, i32::MIN + 1, i32::MAX - 1);
        Some(mv)
    }
}

} // verus!
