//! Plain fixed-depth minimax search, without pruning.

use vstd::prelude::*;

use crate::bits::bit_masks;
use crate::bits::single_bit;
use crate::board::Board;
use crate::eval::Evaluator;
use crate::eval::EVAL_BOUND;
use crate::player::lemma_moves_len;
use crate::player::spec_best;
use crate::player::spec_choice;
use crate::player::spec_search;
use crate::player::Player;

verus! {

/// A minimax player: searches every line to a fixed depth and keeps the
/// extremal score, first move found winning ties.
pub struct Minimax<E: Evaluator> {
    symbol: char,
    depth: u8,
    eval: E,
}

impl<E: Evaluator> Minimax<E> {
    /// A search depth of zero could not choose a move at all.
    #[verifier::type_invariant]
    spec fn type_inv(self) -> bool {
        self.depth >= 1
    }

    /// The evaluator this player scores leaves with.
    pub closed spec fn evaluator(&self) -> E {
        self.eval
    }

    pub closed spec fn spec_depth(&self) -> u8 {
        self.depth
    }

    pub fn new(symbol: char, depth: u8, eval: E) -> (r: Self)
        requires
            depth >= 1,
        ensures
            r.spec_symbol() == symbol,
            r.spec_depth() == depth,
            r.evaluator() == eval,
    {
        Self { symbol, depth, eval }
    }

    /// Computes the minimax value of `board` at `depth` plies, and a legal
    /// move achieving it whenever the side to move has one.
    #[verifier::loop_isolation(false)]
    pub fn search(&self, board: Board, depth: u8, x_turn: bool) -> (r: (i32, u64))
        ensures
            r.0 as int == spec_search(self.evaluator(), board, depth as nat, x_turn),
            -(EVAL_BOUND as int) <= r.0 as int <= EVAL_BOUND as int,
            depth > 0 && !board.spec_is_over() && board.spec_legal_moves(x_turn) != 0 ==> (
            single_bit(r.1) && board.spec_is_legal(r.1, x_turn) && spec_search(
                self.evaluator(),
                board.spec_apply(r.1, x_turn),
                (depth - 1) as nat,
                !x_turn,
            ) == r.0 as int && r.1 == spec_choice(
                self.evaluator(),
                board,
                depth as nat,
                x_turn,
                bit_masks(board.spec_legal_moves(x_turn)).len() as int,
            )),
        decreases depth,
    {
        if depth == 0 || board.is_over() {
            let v = self.eval.eval(board);
            proof {
                self.eval.lemma_eval_bounded(board);
            }
            return (v, 0);
        }
        if board.num_moves(x_turn) == 0 {
            return self.search(board, depth - 1, !x_turn);
        }
        let moves = board.moves_iter(x_turn);
        let n = moves.len();
        proof {
            lemma_moves_len(board, x_turn);
        }
        let mut best_score: i32 = if x_turn {
            i32::MIN
        } else {
            i32::MAX
        };
        let mut best_move: u64 = 0;

        if x_turn {
            let mut j: usize = 0;
            while j < n
                invariant
                    0 <= j <= n,
                    j == 0 ==> best_score == i32::MIN,
                    j >= 1 ==> best_score as int == spec_best(
                        self.evaluator(),
                        board,
                        depth as nat,
                        x_turn,
                        j as int,
                    ) && -(EVAL_BOUND as int) <= best_score as int <= EVAL_BOUND as int
                        && single_bit(best_move) && board.spec_is_legal(best_move, x_turn)
                        && spec_search(
                        self.evaluator(),
                        board.spec_apply(best_move, x_turn),
                        (depth - 1) as nat,
                        !x_turn,
                    ) == best_score as int && best_move == spec_choice(
                        self.evaluator(),
                        board,
                        depth as nat,
                        x_turn,
                        j as int,
                    ),
                decreases n - j,
            {
                let mv = moves[j];
                let mut temp_board = board.clone();
                temp_board.apply_move(mv, x_turn);
                let (eval_score, _m) = self.search(temp_board, depth - 1, !x_turn);
                if eval_score > best_score {
                    best_move = mv;
                    best_score = eval_score;
                }
                j += 1;
            }
        } else {
            let mut j: usize = 0;
            while j < n
                invariant
                    0 <= j <= n,
                    j == 0 ==> best_score == i32::MAX,
                    j >= 1 ==> best_score as int == spec_best(
                        self.evaluator(),
                        board,
                        depth as nat,
                        x_turn,
                        j as int,
                    ) && -(EVAL_BOUND as int) <= best_score as int <= EVAL_BOUND as int
                        && single_bit(best_move) && board.spec_is_legal(best_move, x_turn)
                        && spec_search(
                        self.evaluator(),
                        board.spec_apply(best_move, x_turn),
                        (depth - 1) as nat,
                        !x_turn,
                    ) == best_score as int && best_move == spec_choice(
                        self.evaluator(),
                        board,
                        depth as nat,
                        x_turn,
                        j as int,
                    ),
                decreases n - j,
            {
                let mv = moves[j];
                let mut temp_board = board.clone();
                temp_board.apply_move(mv, x_turn);
                let (eval_score, _m) = self.search(temp_board, depth - 1, !x_turn);
                if eval_score < best_score {
                    best_move = mv;
                    best_score = eval_score;
                }
                j += 1;
            }
        }
        (best_score, best_move)
    }
}

impl<E: Evaluator> Player for Minimax<E> {
    closed spec fn spec_symbol(&self) -> char {
        self.symbol
    }

    fn get_symbol(&self) -> (r: char) {
        self.symbol
    }

    fn get_move(&mut self, board: Board) -> (r: Option<u64>) {
        proof {
            use_type_invariant(&*self);
        }
        if board.num_moves(self.get_symbol() == 'x') == 0 {
            return None;
        }
        let (_score, mv) = self.search(board, self.depth, self.get_symbol() == 'x');
        Some(mv)
    }
}

} // verus!
