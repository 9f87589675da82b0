//! Static position evaluators: a material count and a heuristic combining
//! material, mobility and positional weighting. Scores are always from X's
//! perspective: positive favors X.

use vstd::prelude::*;

use crate::bits::lemma_popbits_le;
use crate::bits::pop64;
use crate::bits::popcount;
use crate::board::Board;

verus! {

pub const CORNERS: u64 = 0x8100_0000_0000_0081;
pub const EDGES: u64 = 0x7e81_8181_8181_817e;
// The outer edge of the board but 1 tile smaller.
pub const RING: u64 = 0x007e_4242_4242_7e00;

pub const CORNER_VAL: i32 = 20;
pub const EDGE_VAL: i32 = 3;
pub const RING_VAL: i32 = -5;

/// Score of a terminal position won by X; strictly dominates every
/// non-terminal heuristic score.
pub const WIN_SCORE: i32 = i32::MAX - 8;

/// Score of a terminal position lost by X.
pub const LOSS_SCORE: i32 = i32::MIN + 8;

/// Largest magnitude any evaluator may return. It is symmetric (it equals
/// the magnitude of `LOSS_SCORE`), so scores stay in range under negation,
/// and it leaves headroom below `i32::MAX`.
pub const EVAL_BOUND: i32 = i32::MAX - 7;

/// A static evaluator: a pure function from a position to a signed score
/// from X's perspective, bounded by `EVAL_BOUND` in magnitude.
pub trait Evaluator: Sized {
    /// The score this evaluator assigns to `board`.
    spec fn spec_eval(&self, board: Board) -> int;

    /// Every score lies within `EVAL_BOUND` in magnitude.
    proof fn lemma_eval_bounded(&self, board: Board)
        ensures
            -(EVAL_BOUND as int) <= self.spec_eval(board) <= EVAL_BOUND as int,
    ;

    /// Computes the score of `board`.
    fn eval(&self, board: Board) -> (r: i32)
        ensures
            r as int == self.spec_eval(board),
    ;
}

/// The number of the side's discs inside `mask`, weighted by `value`.
pub fn position_eval(tiles: u64, mask: u64, value: i32) -> (r: i32)
    requires
        -1000 <= value <= 1000,
    ensures
        r as int == pop64(tiles & mask) * value,
        -64000 <= r as int <= 64000,
{
    let count = popcount(tiles & mask);
    proof {
        lemma_popbits_le(tiles & mask, 64);
        assert(0 <= count as int * value as int <= 64000 || -64000 <= count as int * value as int
            <= 0) by (nonlinear_arith)
            requires
                0 <= count <= 64,
                -1000 <= value <= 1000,
        ;
    }
    count as i32 * value
}

/// Material count: X's discs minus O's discs.
pub struct SimpleEval {}

impl Evaluator for SimpleEval {
    open spec fn spec_eval(&self, board: Board) -> int {
        pop64(board.spec_x()) - pop64(board.spec_o())
    }

    proof fn lemma_eval_bounded(&self, board: Board) {
        lemma_popbits_le(board.spec_x(), 64);
        lemma_popbits_le(board.spec_o(), 64);
    }

    fn eval(&self, board: Board) -> (r: i32) {
        let score_x = popcount(board.get_x());
        let score_o = popcount(board.get_o());
        proof {
            lemma_popbits_le(board.spec_x(), 64);
            lemma_popbits_le(board.spec_o(), 64);
        }
        score_x as i32 - score_o as i32
    }
}

/// The positional component of the heuristic score for one side's discs:
/// corners are valuable, edges mildly so, and the ring one square inset from
/// the edge is a liability.
pub open spec fn spec_position_value(tiles: u64) -> int {
    pop64(tiles & CORNERS) * (CORNER_VAL as int) + pop64(tiles & EDGES) * (EDGE_VAL as int) + pop64(
        tiles & RING,
    ) * (RING_VAL as int)
}

/// Heuristic evaluator: on a terminal position, a saturating win/loss/draw
/// sentinel by disc majority; otherwise material difference plus twice the
/// mobility difference plus the positional difference.
pub struct GoodEval {}

impl GoodEval {
    /// The heuristic score of `board`.
    pub open spec fn spec_good_eval(board: Board) -> int {
        let sx = pop64(board.spec_x()) as int;
        let so = pop64(board.spec_o()) as int;
        if board.spec_is_over() {
            if sx > so {
                WIN_SCORE as int
            } else if sx < so {
                LOSS_SCORE as int
            } else {
                0
            }
        } else {
            let mobility = pop64(board.spec_legal_moves(true)) - pop64(
                board.spec_legal_moves(false),
            );
            (sx - so) + 2 * mobility + (spec_position_value(board.spec_x()) - spec_position_value(
                board.spec_o(),
            ))
        }
    }
}

/// Terminal scoring: on a position where neither side has a legal move and X
/// holds strictly more discs, the heuristic evaluator yields the saturating
/// win sentinel, not a heuristic blend; strictly fewer discs yield the loss
/// sentinel, and equal counts a draw score of zero.
pub proof fn lemma_terminal_sentinels(board: Board)
    requires
        board.spec_is_over(),
    ensures
        pop64(board.spec_x()) > pop64(board.spec_o()) ==> GoodEval::spec_good_eval(board)
            == WIN_SCORE as int,
        pop64(board.spec_x()) < pop64(board.spec_o()) ==> GoodEval::spec_good_eval(board)
            == LOSS_SCORE as int,
        pop64(board.spec_x()) == pop64(board.spec_o()) ==> GoodEval::spec_good_eval(board) == 0,
{
}

impl Evaluator for GoodEval {
    open spec fn spec_eval(&self, board: Board) -> int {
        GoodEval::spec_good_eval(board)
    }

    proof fn lemma_eval_bounded(&self, board: Board) {
        lemma_popbits_le(board.spec_x(), 64);
        lemma_popbits_le(board.spec_o(), 64);
        lemma_popbits_le(board.spec_legal_moves(true), 64);
        lemma_popbits_le(board.spec_legal_moves(false), 64);
        lemma_popbits_le(board.spec_x() & CORNERS, 64);
        lemma_popbits_le(board.spec_x() & EDGES, 64);
        lemma_popbits_le(board.spec_x() & RING, 64);
        lemma_popbits_le(board.spec_o() & CORNERS, 64);
        lemma_popbits_le(board.spec_o() & EDGES, 64);
        lemma_popbits_le(board.spec_o() & RING, 64);
    }

    fn eval(&self, board: Board) -> (r: i32) {
        let x = board.get_x();
        let o = board.get_o();

        let score_x = popcount(x);
        let score_o = popcount(o);

        let moves_x = board.legal_moves(true);
        let moves_o = board.legal_moves(false);

        proof {
            lemma_popbits_le(x, 64);
            lemma_popbits_le(o, 64);
            lemma_popbits_le(moves_x, 64);
            lemma_popbits_le(moves_o, 64);
        }
        // Game over
        if moves_x == 0 && moves_o == 0 {
            if score_x > score_o {
                return WIN_SCORE;
            } else if score_x < score_o {
                return LOSS_SCORE;
            } else {
                return 0;
            }
        }
        let score_diff = score_x as i32 - score_o as i32;
        let mobility = popcount(moves_x) as i32 - popcount(moves_o) as i32;

        let position_x = position_eval(x, CORNERS, CORNER_VAL) + position_eval(x, EDGES, EDGE_VAL)
            + position_eval(x, RING, RING_VAL);

        let position_o = position_eval(o, CORNERS, CORNER_VAL) + position_eval(o, EDGES, EDGE_VAL)
            + position_eval(o, RING, RING_VAL);

        let position = position_x - position_o;

        score_diff + 2 * mobility + position
    }
}

} // verus!
