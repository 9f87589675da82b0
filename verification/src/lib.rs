//! A verified Othello/Reversi engine: a 64-bit bitboard with legal-move
//! generation and flip resolution, pluggable position evaluators, and
//! fixed-depth game-tree search (minimax, alpha-beta, negamax) proved to
//! compute the same minimax value.

pub mod bench;
pub mod bits;
pub mod board;
pub mod eval;
pub mod game;
pub mod player;
pub mod utils;
