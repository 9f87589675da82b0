//! The game driver: alternates turns between two players until neither side
//! has a legal move, and the final score.

use vstd::prelude::*;

use crate::bits::lemma_popbits_le;
use crate::bits::pop64;
use crate::bits::popcount;
use crate::board::Board;
use crate::player::Player;

verus! {

/// A game between two players; `p1` plays X and `p2` plays O.
#[derive(Clone)]
pub struct Game<P1: Player, P2: Player> {
    board: Board,
    p1: P1,
    p2: P2,
    x_turn: bool,
}

impl<P1: Player, P2: Player> Game<P1, P2> {
    pub closed spec fn spec_board(&self) -> Board {
        self.board
    }

    pub closed spec fn spec_p1(&self) -> P1 {
        self.p1
    }

    pub closed spec fn spec_p2(&self) -> P2 {
        self.p2
    }

    pub closed spec fn spec_x_turn(&self) -> bool {
        self.x_turn
    }

    /// The board is well formed and each player sits on its own side.
    pub open spec fn wf(&self) -> bool {
        self.spec_board().wf() && self.spec_p1().spec_symbol() == 'x'
            && self.spec_p2().spec_symbol() == 'o'
    }

    pub fn new(p1: P1, p2: P2) -> (r: Self)
        requires
            p1.spec_symbol() == 'x',
            p2.spec_symbol() == 'o',
        ensures
            r.wf(),
            r.spec_x_turn(),
    {
        Self {
            board: Board::default(),
            p1,  // x
            p2,  // o
            x_turn: true,
        }
    }

    /// Plays the game out: each side in turn supplies a move, a side without
    /// moves passes, and the game ends when neither side can move. Returns
    /// the final disc counts.
    #[verifier::loop_isolation(false)]
    pub fn run(&mut self) -> (r: Score)
        requires
            old(self).wf(),
        ensures
            final(self).wf(),
            final(self).spec_board().spec_is_over(),
            r.spec_x() == pop64(final(self).spec_board().spec_x()),
            r.spec_o() == pop64(final(self).spec_board().spec_o()),
    {
        proof {
            lemma_popbits_le(self.board.spec_occupied(), 64);
        }
        loop
            invariant
                self.wf(),
                pop64(self.spec_board().spec_occupied()) <= 64,
            decreases
                    2 * (64 - pop64(self.spec_board().spec_occupied())) + (
                    if self.spec_board().spec_legal_moves(self.spec_x_turn()) == 0 {
                        1int
                    } else {
                        0int
                    }),
        {
            let mv = if self.x_turn {
                self.p1.get_move(self.board.clone())
            } else {
                self.p2.get_move(self.board.clone())
            };

            match mv {
                Some(m) => {
                    proof {
                        // A side holding a legal move has a nonempty move set.
                        assert(0u64 & m == 0) by (bit_vector);
                    }
                    self.board.apply_move(m, self.x_turn)
                },
                None => {
                },
            }

            self.x_turn = !self.x_turn;

            if self.board.is_over() {
                let score_x = popcount(self.board.get_x());
                let score_o = popcount(self.board.get_o());
                return Score::new(score_x, score_o);
            }
        }
    }

    /// Puts the board back to the starting layout; the players keep their
    /// state and the turn is not reset.
    pub fn reset(&mut self)
        ensures
            final(self).spec_p1() == old(self).spec_p1(),
            final(self).spec_p2() == old(self).spec_p2(),
            final(self).spec_x_turn() == old(self).spec_x_turn(),
            final(self).spec_board().wf(),
            old(self).wf() ==> final(self).wf(),
    {
        self.board = Board::new();
    }
}

/// The final disc counts of a finished game.
pub struct Score {
    x: u32,
    o: u32,
}

impl Score {
    pub closed spec fn spec_x(&self) -> u32 {
        self.x
    }

    pub closed spec fn spec_o(&self) -> u32 {
        self.o
    }

    pub fn new(x: u32, o: u32) -> (r: Self)
        ensures
            r.spec_x() == x,
            r.spec_o() == o,
    {
        Self { x, o }
    }

    pub fn x(&self) -> (r: u32)
        ensures
            r == self.spec_x(),
    {
        self.x
    }

    pub fn o(&self) -> (r: u32)
        ensures
            r == self.spec_o(),
    {
        self.o
    }

    /// Who won: the side with strictly more discs, a draw otherwise.
    pub fn outcome(&self) -> (r: Outcome)
        ensures
            r == (if self.spec_x() > self.spec_o() {
                Outcome::Xwin
            } else if self.spec_o() > self.spec_x() {
                Outcome::OWin
            } else {
                Outcome::Draw
            }),
    {
        if self.x > self.o {
            Outcome::Xwin
        } else if self.o > self.x {
            Outcome::OWin
        } else {
            Outcome::Draw
        }
    }
}

#[derive(Clone, Copy, Debug, PartialEq, Eq, Structural)]
pub enum Outcome {
    Xwin,
    OWin,
    Draw,
}

} // verus!
