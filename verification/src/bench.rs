//! Batch runs of whole games with outcome tallies and wall-clock timing.

use vstd::prelude::*;

use crate::game::Game;
use crate::game::Outcome;
use crate::player::Player;

verus! {

#[verifier::external_type_specification]
#[verifier::external_body]
pub struct ExInstant(std::time::Instant);

/// Relies on std's `Instant::now`: reads the monotonic clock. Nothing is
/// assumed about the value it returns.
#[verifier::external_body]
fn instant_now() -> std::time::Instant {
    std::time::Instant::now()
}

/// Relies on std's `Instant::elapsed`: the time since `start` was taken.
/// Nothing is assumed about the value it returns.
#[verifier::external_body]
fn instant_elapsed(start: &std::time::Instant) -> std::time::Duration {
    start.elapsed()
}

/// Aggregated results of a batch of games: a tally per outcome, the number
/// of games, how long the batch took, and a label.
pub struct Stat {
    pub x_wins: u32,
    pub draws: u32,
    pub o_wins: u32,
    pub iterations: u32,
    pub duration: std::time::Duration,
    pub description: String,
}

impl Stat {
    pub fn new(
        x_wins: u32,
        draws: u32,
        o_wins: u32,
        iterations: u32,
        duration: std::time::Duration,
        description: String,
    ) -> (r: Self)
        ensures
            r.x_wins == x_wins,
            r.draws == draws,
            r.o_wins == o_wins,
            r.iterations == iterations,
            r.description == description,
    {
        Self { x_wins, draws, o_wins, iterations, duration, description }
    }
}

/// Runs `iterations` games between the two players and tallies the outcomes:
/// every game is counted in exactly one tally.
pub fn run_bench<P1: Player, P2: Player>(
    p1: P1,
    p2: P2,
    iterations: u32,
    description: String,
) -> (r: Stat)
    requires
        p1.spec_symbol() == 'x',
        p2.spec_symbol() == 'o',
    ensures
        r.x_wins + r.draws + r.o_wins == iterations,
        r.iterations == iterations,
        r.description == description,
{
    let start = instant_now();

    let mut x_wins: u32 = 0;
    let mut draws: u32 = 0;
    let mut o_wins: u32 = 0;

    let mut game = Game::new(p1, p2);
    let mut i: u32 = 0;
    while i < iterations
        invariant
            i <= iterations,
            x_wins + draws + o_wins == i,
            game.wf(),
        decreases iterations - i,
    {
        match game.run().outcome() {
            Outcome::Xwin => x_wins += 1,
            Outcome::Draw => draws += 1,
            Outcome::OWin => o_wins += 1,
        }
        game.reset();
        i += 1;
    }

    let duration = instant_elapsed(&start);
    Stat::new(x_wins, draws, o_wins, iterations, duration, description)
}

} // verus!
