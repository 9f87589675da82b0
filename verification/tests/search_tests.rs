//! Tests of the evaluators and the three search strategies, including their
//! score equivalence on sampled positions.

use othello::board::Board;
use othello::eval::Evaluator;
use othello::eval::GoodEval;
use othello::eval::SimpleEval;
use othello::eval::LOSS_SCORE;
use othello::eval::WIN_SCORE;
use othello::player::AlphaBeta;
use othello::player::Minimax;
use othello::player::Negamax;
use othello::player::Player;

#[test]
fn simple_eval_material_difference() {
    let e = SimpleEval {};
    assert_eq!(e.eval(Board::new()), 0);
    assert_eq!(e.eval(Board::from_masks(0b111, 0b1000)), 2);
    assert_eq!(e.eval(Board::from_masks(0, 0b11)), -2);
}

#[test]
fn good_eval_start_is_balanced() {
    let e = GoodEval {};
    // Material, mobility and positional components all cancel at the start.
    assert_eq!(e.eval(Board::new()), 0);
}

#[test]
fn good_eval_terminal_sentinels() {
    let e = GoodEval {};
    // Terminal positions (no moves for either side) score as saturating
    // sentinels by disc majority, not as a heuristic blend.
    assert_eq!(e.eval(Board::from_masks(0b111, 0)), WIN_SCORE);
    assert_eq!(e.eval(Board::from_masks(0, 0b111)), LOSS_SCORE);
    assert_eq!(e.eval(Board::from_masks(0b1, 0b100)), 0);
    assert_eq!(WIN_SCORE, i32::MAX - 8);
    assert_eq!(LOSS_SCORE, i32::MIN + 8);
}

#[test]
fn good_eval_positional_weights() {
    let e = GoodEval {};
    // X holds the a8 corner, O holds b8 and c8: X's only move is d8 (bit 3),
    // O has none, and the game is not over.
    // Material: 1 - 2. Mobility: 1 - 0, weighted twice.
    // Position: a corner (+20) for X against two edge squares (+3) for O.
    let b = Board::from_masks(1 << 0, (1 << 1) | (1 << 2));
    assert_eq!(b.legal_moves(true), 1 << 3);
    assert_eq!(b.legal_moves(false), 0);
    assert!(!b.is_over());
    let expected = (1 - 2) + 2 * (1 - 0) + (20 - 2 * 3);
    assert_eq!(e.eval(b), expected);
}

#[test]
fn depth_zero_returns_eval_unchanged() {
    let b = Board::new();
    let eval = SimpleEval {};
    let (score, _) = Minimax::new('x', 4, SimpleEval {}).search(b, 0, true);
    assert_eq!(score, eval.eval(b));
    let (score, _) = AlphaBeta::new('x', 4, SimpleEval {}).search(b, 0, true, i32::MIN, i32::MAX);
    assert_eq!(score, eval.eval(b));
    let (score, _) =
        Negamax::new('x', 4, SimpleEval {}).search(b, 0, true, 1, i32::MIN + 1, i32::MAX - 1);
    assert_eq!(score, eval.eval(b));
    // For the minimizing side, negamax negates the leaf evaluation.
    let b2 = Board::from_masks(0b111, 0b1000 << 32);
    let (score, _) =
        Negamax::new('o', 4, SimpleEval {}).search(b2, 0, false, -1, i32::MIN + 1, i32::MAX - 1);
    assert_eq!(score, -eval.eval(b2));
}

#[test]
fn pass_consumes_a_ply_and_flips_turn() {
    // O to move has no legal move, X has one: the search must recurse with
    // the turn flipped and the depth decremented, not stop.
    let b = Board::from_masks(1 << 0, 1 << 1);
    assert_eq!(b.legal_moves(false), 0);
    assert!(b.legal_moves(true) != 0);
    assert!(!b.is_over());

    let mm = Minimax::new('o', 3, SimpleEval {});
    let (passed, _) = mm.search(b, 2, false);
    let (direct, _) = mm.search(b, 1, true);
    assert_eq!(passed, direct);

    // A player whose side must pass returns None rather than a move.
    let mut mm_o = Minimax::new('o', 3, SimpleEval {});
    assert_eq!(mm_o.get_move(b), None);
    let mut ab_o = AlphaBeta::new('o', 3, SimpleEval {});
    assert_eq!(ab_o.get_move(b), None);
    let mut ng_o = Negamax::new('o', 3, SimpleEval {});
    assert_eq!(ng_o.get_move(b), None);
}

#[test]
fn chosen_moves_are_legal() {
    let b = Board::new();
    let mut mm = Minimax::new('x', 3, GoodEval {});
    let mv = mm.get_move(b).unwrap();
    assert_eq!(mv.count_ones(), 1);
    assert!(b.is_legal(mv, true));

    let mut ab = AlphaBeta::new('o', 3, GoodEval {});
    let mv = ab.get_move(b).unwrap();
    assert!(b.is_legal(mv, false));

    let mut ng = Negamax::new('o', 3, GoodEval {});
    let mv = ng.get_move(b).unwrap();
    assert!(b.is_legal(mv, false));
}

/// A deterministic pseudo-random walk: plays `plies` half-moves from the
/// start, choosing each move by a linear-congruential index.
fn sampled_position(seed: u64, plies: u32) -> (Board, bool) {
    let mut state = seed;
    let mut b = Board::new();
    let mut x_turn = true;
    for _ in 0..plies {
        if b.is_over() {
            break;
        }
        let moves = b.moves_iter(x_turn);
        if !moves.is_empty() {
            state = state.wrapping_mul(6364136223846793005).wrapping_add(1442695040888963407);
            let pick = (state >> 33) as usize % moves.len();
            b.apply_move(moves[pick], x_turn);
        }
        x_turn = !x_turn;
    }
    (b, x_turn)
}

#[test]
fn search_equivalence_on_sampled_positions() {
    // For a fixed small depth and evaluator, minimax, alpha-beta and negamax
    // agree on the best score for every sampled legal position.
    let depth = 4;
    let mm = Minimax::new('x', depth, SimpleEval {});
    let ab = AlphaBeta::new('x', depth, SimpleEval {});
    let ng = Negamax::new('x', depth, SimpleEval {});
    for i in 0..100u64 {
        let (b, x_turn) = sampled_position(i + 1, (i % 50) as u32);
        let (m_score, _) = mm.search(b, depth, x_turn);
        let (a_score, _) = ab.search(b, depth, x_turn, i32::MIN, i32::MAX);
        let color: i8 = if x_turn { 1 } else { -1 };
        let (n_score, _) = ng.search(b, depth, x_turn, color, i32::MIN + 1, i32::MAX - 1);
        assert_eq!(m_score, a_score);
        assert_eq!(m_score, color as i32 * n_score);
    }
}

#[test]
fn search_equivalence_heuristic_eval() {
    let depth = 3;
    let mm = Minimax::new('x', depth, GoodEval {});
    let ab = AlphaBeta::new('x', depth, GoodEval {});
    let ng = Negamax::new('x', depth, GoodEval {});
    for i in 0..30u64 {
        let (b, x_turn) = sampled_position(1000 + i, (i * 2 % 60) as u32);
        let (m_score, _) = mm.search(b, depth, x_turn);
        let (a_score, _) = ab.search(b, depth, x_turn, i32::MIN, i32::MAX);
        let color: i8 = if x_turn { 1 } else { -1 };
        let (n_score, _) = ng.search(b, depth, x_turn, color, i32::MIN + 1, i32::MAX - 1);
        assert_eq!(m_score, a_score);
        assert_eq!(m_score, color as i32 * n_score);
    }
}

#[test]
fn minimax_keeps_first_move_on_ties() {
    // From the start every legal X move flips exactly one disc, so with the
    // material evaluator at depth 1 all four moves tie; the first one in
    // bit-index order must be kept.
    let mut mm = Minimax::new('x', 1, SimpleEval {});
    assert_eq!(mm.get_move(Board::new()), Some(1u64 << 20));
}
