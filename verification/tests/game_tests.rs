//! Tests of the game driver, the score type, random players, and batch runs.

use othello::bench::run_bench;
use othello::board::Board;
use othello::eval::SimpleEval;
use othello::game::Game;
use othello::game::Outcome;
use othello::game::Score;
use othello::player::Negamax;
use othello::player::Player;
use othello::player::RandomAI;

#[test]
fn score_accessors_and_outcome() {
    let s = Score::new(40, 24);
    assert_eq!(s.x(), 40);
    assert_eq!(s.o(), 24);
    assert_eq!(s.outcome(), Outcome::Xwin);
    assert_eq!(Score::new(10, 20).outcome(), Outcome::OWin);
    assert_eq!(Score::new(32, 32).outcome(), Outcome::Draw);
}

#[test]
fn random_player_moves_are_legal() {
    let b = Board::new();
    let mut p = RandomAI::with_seed('x', 42);
    for _ in 0..20 {
        let mv = p.get_move(b).unwrap();
        assert_eq!(mv.count_ones(), 1);
        assert!(b.is_legal(mv, true));
    }
    // A side without moves passes.
    let stuck = Board::from_masks(1 << 1, 1 << 0);
    let mut q = RandomAI::with_seed('x', 7);
    assert!(q.get_move(stuck).is_none());
}

#[test]
fn random_game_runs_to_completion() {
    let p1 = RandomAI::with_seed('x', 1);
    let p2 = RandomAI::with_seed('o', 2);
    let mut game = Game::new(p1, p2);
    let score = game.run();
    // At most 64 squares are occupied, and the four starting discs plus at
    // least one played move are on the board.
    assert!(score.x() + score.o() <= 64);
    assert!(score.x() + score.o() >= 5);
}

#[test]
fn search_player_beats_random_reliably() {
    // Not a certainty in general, but stable for these seeds: a depth-4
    // negamax should not lose to uniformly random play.
    let p1 = Negamax::new('x', 4, SimpleEval {});
    let p2 = RandomAI::with_seed('o', 33);
    let mut game = Game::new(p1, p2);
    let score = game.run();
    assert!(score.x() > score.o());
}

#[test]
fn run_bench_counts_every_game() {
    let p1 = RandomAI::with_seed('x', 5);
    let p2 = RandomAI::with_seed('o', 6);
    let stat = run_bench(p1, p2, 10, String::from("random vs random"));
    assert_eq!(stat.x_wins + stat.draws + stat.o_wins, 10);
    assert_eq!(stat.iterations, 10);
    assert_eq!(stat.description, "random vs random");
}

#[test]
fn game_reset_restores_start() {
    let p1 = RandomAI::with_seed('x', 8);
    let p2 = RandomAI::with_seed('o', 9);
    let mut game = Game::new(p1, p2);
    let first = game.run();
    assert!(first.x() + first.o() <= 64);
    game.reset();
    let second = game.run();
    assert!(second.x() + second.o() <= 64);
}
