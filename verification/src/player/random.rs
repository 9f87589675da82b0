//! A player that picks uniformly among its legal moves, backed by rand's
//! `SmallRng` behind trusted wrappers.

use vstd::prelude::*;

use crate::board::Board;
use crate::player::Player;

verus! {

#[verifier::external_type_specification]
#[verifier::external_body]
pub struct ExSmallRng(rand::rngs::SmallRng);

/// Relies on rand's `SeedableRng::from_os_rng` for `SmallRng`: seeds a fresh
/// generator from the operating system's entropy source, panicking only if
/// that source fails. Nothing is assumed about the state it returns.
#[verifier::external_body]
fn rng_from_os() -> rand::rngs::SmallRng {
    <rand::rngs::SmallRng as rand::SeedableRng>::from_os_rng()
}

/// Relies on rand's `SeedableRng::seed_from_u64` for `SmallRng`: builds a
/// deterministically seeded generator. Nothing is assumed about its state.
#[verifier::external_body]
fn rng_seed_from_u64(seed: u64) -> rand::rngs::SmallRng {
    <rand::rngs::SmallRng as rand::SeedableRng>::seed_from_u64(seed)
}

/// Relies on rand's `Rng::random_range` over `0..n`, which panics on an
/// empty range and otherwise returns a value inside it. Only membership in
/// the range is assumed, nothing about which value comes out.
#[verifier::external_body]
fn rng_random_range(rng: &mut rand::rngs::SmallRng, n: u32) -> (r: u32)
    requires
        n > 0,
    ensures
        r < n,
{
    rand::Rng::random_range(rng, 0..n)
}

/// A player that chooses one of its legal moves at random; reproducible when
/// built with `with_seed`.
pub struct RandomAI {
    symbol: char,
    rng: rand::rngs::SmallRng,
}

impl RandomAI {
    pub fn new(symbol: char) -> (r: Self)
        ensures
            r.spec_symbol() == symbol,
    {
        Self { symbol, rng: rng_from_os() }
    }

    pub fn with_seed(symbol: char, seed: u64) -> (r: Self)
        ensures
            r.spec_symbol() == symbol,
    {
        Self { symbol, rng: rng_seed_from_u64(seed) }
    }
}

impl Player for RandomAI {
    closed spec fn spec_symbol(&self) -> char {
        self.symbol
    }

    fn get_symbol(&self) -> (r: char) {
        self.symbol
    }

    fn get_move(&mut self, board: Board) -> (r: Option<u64>) {
        let num_moves = board.num_moves(self.get_symbol() == 'x');
        if num_moves == 0 {
            return None;
        }
        let num = rng_random_range(&mut self.rng, num_moves) as usize;
        let moves = board.moves_iter(self.get_symbol() == 'x');
        let mv = moves[num];
        Some(mv)
    }
}

} // verus!
