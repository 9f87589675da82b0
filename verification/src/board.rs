//! The bitboard engine: two 64-bit occupancy masks (one per side), ray scans
//! along the eight board directions, legal-move generation and move
//! application with capture resolution.
//!
//! Square `a8` is bit 0; squares are numbered row-major, so bit index is
//! `row * 8 + col`. All directional shifts mask out wraparound at the board
//! edges via the file and rank masks below.

use vstd::prelude::*;

use crate::bits::bit_masks;
use crate::bits::bits_below;
use crate::bits::lemma_bits_below_elems;
use crate::bits::lemma_pop64_grow;
use crate::bits::lemma_pop64_zero;
use crate::bits::lemma_popbits_le;
use crate::bits::mask_to_moves;
use crate::bits::pop64;
use crate::bits::popcount;
use crate::bits::single_bit;

verus! {

pub const NOT_FILE_A: u64 = 0xFEFE_FEFE_FEFE_FEFE;
pub const NOT_FILE_H: u64 = 0x7F7F_7F7F_7F7F_7F7F;
pub const NOT_RANK_1: u64 = 0x00FF_FFFF_FFFF_FFFF;
pub const NOT_RANK_8: u64 = 0xFFFF_FFFF_FFFF_FF00;

/// One of the eight board directions a ray scan can take.
#[derive(Clone, Copy)]
pub enum Dir {
    E,
    W,
    S,
    N,
    Ne,
    Se,
    Nw,
    Sw,
}

/// Moves every disc of `x` one square in direction `d`, dropping discs that
/// would wrap around a board edge.
pub open spec fn spec_shift(d: Dir, x: u64) -> u64 {
    match d {
        Dir::E => (x << 1u64) & NOT_FILE_A,
        Dir::W => (x >> 1u64) & NOT_FILE_H,
        Dir::S => (x << 8u64) & NOT_RANK_8,
        Dir::N => (x >> 8u64) & NOT_RANK_1,
        Dir::Ne => (x >> 7u64) & NOT_RANK_1 & NOT_FILE_A,
        Dir::Se => (x << 9u64) & NOT_RANK_8 & NOT_FILE_A,
        Dir::Nw => (x >> 9u64) & NOT_RANK_1 & NOT_FILE_H,
        Dir::Sw => (x << 7u64) & NOT_RANK_8 & NOT_FILE_H,
    }
}

// The eight directional shift functions.
pub fn e(x: u64) -> (r: u64)
    ensures
        r == spec_shift(Dir::E, x),
{
    (x << 1u64) & NOT_FILE_A
}

pub fn w(x: u64) -> (r: u64)
    ensures
        r == spec_shift(Dir::W, x),
{
    (x >> 1u64) & NOT_FILE_H
}

pub fn s(x: u64) -> (r: u64)
    ensures
        r == spec_shift(Dir::S, x),
{
    (x << 8u64) & NOT_RANK_8
}

pub fn n(x: u64) -> (r: u64)
    ensures
        r == spec_shift(Dir::N, x),
{
    (x >> 8u64) & NOT_RANK_1
}

pub fn ne(x: u64) -> (r: u64)
    ensures
        r == spec_shift(Dir::Ne, x),
{
    (x >> 7u64) & NOT_RANK_1 & NOT_FILE_A
}

pub fn se(x: u64) -> (r: u64)
    ensures
        r == spec_shift(Dir::Se, x),
{
    (x << 9u64) & NOT_RANK_8 & NOT_FILE_A
}

pub fn nw(x: u64) -> (r: u64)
    ensures
        r == spec_shift(Dir::Nw, x),
{
    (x >> 9u64) & NOT_RANK_1 & NOT_FILE_H
}

pub fn sw(x: u64) -> (r: u64)
    ensures
        r == spec_shift(Dir::Sw, x),
{
    (x << 7u64) & NOT_RANK_8 & NOT_FILE_H
}

/// Shifts `x` one square in direction `d`.
pub fn shift(d: Dir, x: u64) -> (r: u64)
    ensures
        r == spec_shift(d, x),
{
    match d {
        Dir::E => e(x),
        Dir::W => w(x),
        Dir::S => s(x),
        Dir::N => n(x),
        Dir::Ne => ne(x),
        Dir::Se => se(x),
        Dir::Nw => nw(x),
        Dir::Sw => sw(x),
    }
}

/// The run of opponent discs reached from `seed` after `k + 1` extension
/// steps in direction `d`.
pub open spec fn ray_run(d: Dir, seed: u64, opp: u64, k: nat) -> u64
    decreases k,
{
    if k == 0 {
        spec_shift(d, seed) & opp
    } else {
        let prev = ray_run(d, seed, opp, (k - 1) as nat);
        prev | (spec_shift(d, prev) & opp)
    }
}

/// The opponent discs flipped by playing on `mv` along direction `d`: the
/// maximal run of opponent discs adjacent to `mv`, provided it is anchored
/// by a mover disc.
pub open spec fn spec_flips(mv: u64, d: Dir, me: u64, opp: u64) -> u64 {
    let run = ray_run(d, mv, opp, 5);
    if spec_shift(d, run) & me != 0 {
        run
    } else {
        0
    }
}

/// The legal destination squares in direction `d`: empty squares just past a
/// run of opponent discs adjacent to a mover disc.
pub open spec fn spec_moves_dir(d: Dir, me: u64, opp: u64, empty: u64) -> u64 {
    spec_shift(d, ray_run(d, me, opp, 5)) & empty
}

#[derive(Clone, Copy)]
pub struct Board {
    x: u64,
    o: u64,
}

impl Board {
    /// The occupancy mask of side X.
    pub closed spec fn spec_x(self) -> u64 {
        self.x
    }

    /// The occupancy mask of side O.
    pub closed spec fn spec_o(self) -> u64 {
        self.o
    }

    /// No square is occupied by both sides.
    pub open spec fn wf(self) -> bool {
        self.spec_x() & self.spec_o() == 0
    }

    /// The squares occupied by either side.
    pub open spec fn spec_occupied(self) -> u64 {
        self.spec_x() | self.spec_o()
    }

    /// The mover's and the opponent's masks, by side to move.
    pub open spec fn spec_me_opp(self, x_turn: bool) -> (u64, u64) {
        if x_turn {
            (self.spec_x(), self.spec_o())
        } else {
            (self.spec_o(), self.spec_x())
        }
    }

    /// All legal destination squares for the given side, over the eight
    /// directions.
    pub open spec fn spec_legal_moves(self, x_turn: bool) -> u64 {
        let me = self.spec_me_opp(x_turn).0;
        let opp = self.spec_me_opp(x_turn).1;
        let empty = !(me | opp);
        spec_moves_dir(Dir::E, me, opp, empty) | spec_moves_dir(Dir::W, me, opp, empty)
            | spec_moves_dir(Dir::N, me, opp, empty) | spec_moves_dir(Dir::S, me, opp, empty)
            | spec_moves_dir(Dir::Se, me, opp, empty) | spec_moves_dir(Dir::Sw, me, opp, empty)
            | spec_moves_dir(Dir::Nw, me, opp, empty) | spec_moves_dir(Dir::Ne, me, opp, empty)
    }

    pub open spec fn spec_is_legal(self, mv: u64, x_turn: bool) -> bool {
        self.spec_legal_moves(x_turn) & mv != 0
    }

    /// Neither side has a legal move.
    pub open spec fn spec_is_over(self) -> bool {
        self.spec_legal_moves(true) == 0 && self.spec_legal_moves(false) == 0
    }

    /// The squares that change ownership when `mv` is played: every anchored
    /// run of opponent discs around `mv`, plus the move square itself.
    pub open spec fn spec_flip_mask(self, mv: u64, x_turn: bool) -> u64 {
        let me = self.spec_me_opp(x_turn).0;
        let opp = self.spec_me_opp(x_turn).1;
        spec_flips(mv, Dir::E, me, opp) | spec_flips(mv, Dir::W, me, opp)
            | spec_flips(mv, Dir::N, me, opp) | spec_flips(mv, Dir::S, me, opp)
            | spec_flips(mv, Dir::Se, me, opp) | spec_flips(mv, Dir::Sw, me, opp)
            | spec_flips(mv, Dir::Nw, me, opp) | spec_flips(mv, Dir::Ne, me, opp) | mv
    }

    /// The board after the given side plays `mv`: the flip mask is added to
    /// the mover's discs and removed from the opponent's.
    pub open spec fn spec_apply(self, mv: u64, x_turn: bool) -> Board {
        let mask = self.spec_flip_mask(mv, x_turn);
        self.spec_flip_tiles(mask, x_turn)
    }

    pub closed spec fn spec_flip_tiles(self, mask: u64, x_turn: bool) -> Board {
        if x_turn {
            Board { x: self.x | mask, o: self.o & !mask }
        } else {
            Board { x: self.x & !mask, o: self.o | mask }
        }
    }

    /// The standard Othello starting layout: two discs per side on the four
    /// center squares.
    pub fn new() -> (r: Board)
        ensures
            r.spec_x() == (1u64 << 27u64) | (1u64 << 36u64),
            r.spec_o() == (1u64 << 28u64) | (1u64 << 35u64),
            r.wf(),
    {
        proof {
            assert((1u64 << 27u64) + (1u64 << 36u64) == (1u64 << 27u64) | (1u64 << 36u64) && (1u64
                << 28u64) + (1u64 << 35u64) == (1u64 << 28u64) | (1u64 << 35u64)) by (bit_vector);
            assert((((1u64 << 27u64) | (1u64 << 36u64)) & ((1u64 << 28u64) | (1u64 << 35u64))) == 0)
                by (bit_vector);
        }
        Board { x: (1u64 << 27u64) + (1u64 << 36u64), o: (1u64 << 28u64) + (1u64 << 35u64) }
    }

    /// A board with the given occupancy masks; the masks must be disjoint.
    pub fn from_masks(x: u64, o: u64) -> (r: Board)
        requires
            x & o == 0,
        ensures
            r.spec_x() == x,
            r.spec_o() == o,
            r.wf(),
    {
        Board { x, o }
    }

    pub fn get_x(&self) -> (r: u64)
        ensures
            r == self.spec_x(),
    {
        self.x
    }

    pub fn get_o(&self) -> (r: u64)
        ensures
            r == self.spec_o(),
    {
        self.o
    }

    fn get_idx(row: u8, col: u8) -> (r: u8)
        requires
            row < 8,
            col < 8,
        ensures
            r == row * 8 + col,
            r < 64,
    {
        row * 8 + col
    }

    /// The single-bit mask of the square in the given row and column.
    pub fn get_move(row: u8, col: u8) -> (r: u64)
        requires
            row < 8,
            col < 8,
        ensures
            r == 1u64 << ((row * 8 + col) as u64),
            single_bit(r),
    {
        let idx = Board::get_idx(row, col);
        let r = 1u64 << (idx as u64);
        proof {
            assert(single_bit(1u64 << ((row * 8 + col) as u64))) by {
                let k: u64 = (row * 8 + col) as u64;
                assert(k < 64 && (1u64 << k) == (1u64 << k));
            }
        }
        r
    }

    fn get_me_opp(&self, x_turn: bool) -> (r: (u64, u64))
        ensures
            r == self.spec_me_opp(x_turn),
    {
        if x_turn {
            (self.x, self.o)
        } else {
            (self.o, self.x)
        }
    }

    /// The character shown for the square in the given row and column:
    /// `x` or `o` for an occupied square, `.` for an empty one.
    pub fn at(&self, row: u8, col: u8) -> (r: char)
        requires
            row < 8,
            col < 8,
        ensures
            r == (if self.spec_x() & (1u64 << ((row * 8 + col) as u64)) != 0 {
                'x'
            } else if self.spec_o() & (1u64 << ((row * 8 + col) as u64)) != 0 {
                'o'
            } else {
                '.'
            }),
    {
        let idx = 1u64 << (Board::get_idx(row, col) as u64);
        let x_val = self.x & idx;
        let o_val = self.o & idx;
        if x_val != 0 {
            'x'
        } else if o_val != 0 {
            'o'
        } else {
            '.'
        }
    }

    /// Plays `mv` for the given side, flipping every captured run.
    pub fn apply_move(&mut self, mv: u64, x_turn: bool)
        ensures
            *final(self) == old(self).spec_apply(mv, x_turn),
            old(self).wf() ==> final(self).wf(),
            old(self).wf() && single_bit(mv) && old(self).spec_is_legal(mv, x_turn) ==> (
                final(self).spec_occupied() == old(self).spec_occupied() | (old(self).spec_flip_mask(mv, x_turn) & !old(self).spec_occupied())
                && pop64(final(self).spec_occupied()) > pop64(old(self).spec_occupied())
                && pop64(final(self).spec_occupied()) <= 64
            ),
    {
        let (me, opp) = self.get_me_opp(x_turn);

        let mask = Board::calc_flips(mv, Dir::E, me, opp) | Board::calc_flips(mv, Dir::W, me, opp)
            | Board::calc_flips(mv, Dir::N, me, opp) | Board::calc_flips(mv, Dir::S, me, opp)
            | Board::calc_flips(mv, Dir::Se, me, opp) | Board::calc_flips(mv, Dir::Sw, me, opp)
            | Board::calc_flips(mv, Dir::Nw, me, opp) | Board::calc_flips(mv, Dir::Ne, me, opp)
            | mv;

        proof {
            lemma_flip_tiles_wf(*self, mask, x_turn);
            if old(self).wf() && single_bit(mv) && old(self).spec_is_legal(mv, x_turn) {
                lemma_apply_grows(*old(self), mv, x_turn);
            }
        }
        self.flip_tiles(mask, x_turn);
    }

    /// The opponent discs flipped along one direction by playing on `mv`.
    fn calc_flips(mv: u64, d: Dir, me: u64, opp: u64) -> (r: u64)
        ensures
            r == spec_flips(mv, d, me, opp),
    {
        let mut run = shift(d, mv) & opp;
        let mut i: u64 = 0;
        while i < 5
            invariant
                i <= 5,
                run == ray_run(d, mv, opp, i as nat),
            decreases 5 - i,
        {
            run = run | (shift(d, run) & opp);
            i = i + 1;
        }
        if shift(d, run) & me != 0 {
            run
        } else {
            0
        }
    }

    /// Commits a flip mask: adds it to the mover's discs and removes it from
    /// the opponent's.
    fn flip_tiles(&mut self, mask: u64, x_turn: bool)
        ensures
            *final(self) == old(self).spec_flip_tiles(mask, x_turn),
    {
        if x_turn {
            self.x = self.x | mask;
            self.o = self.o & !mask;
        } else {
            self.x = self.x & !mask;
            self.o = self.o | mask;
        }
    }

    /// The legal destinations in one direction for the given mover and
    /// opponent masks.
    fn moves_dir(d: Dir, me: u64, opp: u64, empty: u64) -> (r: u64)
        ensures
            r == spec_moves_dir(d, me, opp, empty),
    {
        let mut t = shift(d, me) & opp;
        let mut i: u64 = 0;
        while i < 5
            invariant
                i <= 5,
                t == ray_run(d, me, opp, i as nat),
            decreases 5 - i,
        {
            t = t | (shift(d, t) & opp);
            i = i + 1;
        }
        shift(d, t) & empty
    }

    /// All legal destination squares for the given side. Every returned bit
    /// lies on an empty square.
    pub fn legal_moves(&self, x_turn: bool) -> (r: u64)
        ensures
            r == self.spec_legal_moves(x_turn),
            r & self.spec_occupied() == 0,
    {
        let (me, opp) = self.get_me_opp(x_turn);
        let empty = !(me | opp);

        let r = Board::moves_dir(Dir::E, me, opp, empty) | Board::moves_dir(Dir::W, me, opp, empty)
            | Board::moves_dir(Dir::N, me, opp, empty) | Board::moves_dir(Dir::S, me, opp, empty)
            | Board::moves_dir(Dir::Se, me, opp, empty) | Board::moves_dir(Dir::Sw, me, opp, empty)
            | Board::moves_dir(Dir::Nw, me, opp, empty) | Board::moves_dir(Dir::Ne, me, opp, empty);
        proof {
            lemma_legal_moves_on_empty(*self, x_turn);
        }
        r
    }

    /// `mv` overlaps the side's legal-move set.
    pub fn is_legal(&self, mv: u64, x_turn: bool) -> (r: bool)
        ensures
            r == self.spec_is_legal(mv, x_turn),
    {
        self.legal_moves(x_turn) & mv != 0
    }

    /// How many legal moves the given side has.
    pub fn num_moves(&self, x_turn: bool) -> (r: u32)
        ensures
            r == pop64(self.spec_legal_moves(x_turn)),
            r == 0 <==> self.spec_legal_moves(x_turn) == 0,
    {
        let r = popcount(self.legal_moves(x_turn));
        proof {
            lemma_pop64_zero(self.spec_legal_moves(x_turn));
        }
        r
    }

    /// The game is over exactly when neither side has a legal move.
    pub fn is_over(&self) -> (r: bool)
        ensures
            r == self.spec_is_over(),
    {
        self.legal_moves(true) == 0 && self.legal_moves(false) == 0
    }

    /// The side's legal moves as single-bit masks, in increasing bit-index
    /// order. Every element is a legal single-bit move.
    pub fn moves_iter(&self, x_turn: bool) -> (r: Vec<u64>)
        ensures
            r@ == bit_masks(self.spec_legal_moves(x_turn)),
            r@.len() == pop64(self.spec_legal_moves(x_turn)),
            forall|j: int|
                0 <= j < r@.len() ==> single_bit(#[trigger] r@[j]) && self.spec_is_legal(
                    r@[j],
                    x_turn,
                ),
    {
        let m = self.legal_moves(x_turn);
        let v = mask_to_moves(m);
        proof {
            lemma_bits_below_elems(m, 64);
            assert forall|j: int| 0 <= j < v@.len() implies single_bit(#[trigger] v@[j])
                && self.spec_is_legal(v@[j], x_turn) by {
                assert(v@[j] == bits_below(m, 64)[j]);
            }
        }
        v
    }
}

impl Default for Board {
    /// The starting layout.
    fn default() -> (r: Self)
        ensures
            r.spec_x() == (1u64 << 27u64) | (1u64 << 36u64),
            r.spec_o() == (1u64 << 28u64) | (1u64 << 35u64),
            r.wf(),
    {
        Self::new()
    }
}

/// Legal moves lie on empty squares only: the legal-move mask never overlaps
/// either side's discs.
pub proof fn lemma_legal_moves_on_empty(b: Board, x_turn: bool)
    ensures
        b.spec_legal_moves(x_turn) & b.spec_occupied() == 0,
{
    let me = b.spec_me_opp(x_turn).0;
    let opp = b.spec_me_opp(x_turn).1;
    let occ = b.spec_occupied();
    let empty = !(me | opp);
    let t0 = spec_shift(Dir::E, ray_run(Dir::E, me, opp, 5));
    let t1 = spec_shift(Dir::W, ray_run(Dir::W, me, opp, 5));
    let t2 = spec_shift(Dir::N, ray_run(Dir::N, me, opp, 5));
    let t3 = spec_shift(Dir::S, ray_run(Dir::S, me, opp, 5));
    let t4 = spec_shift(Dir::Se, ray_run(Dir::Se, me, opp, 5));
    let t5 = spec_shift(Dir::Sw, ray_run(Dir::Sw, me, opp, 5));
    let t6 = spec_shift(Dir::Nw, ray_run(Dir::Nw, me, opp, 5));
    let t7 = spec_shift(Dir::Ne, ray_run(Dir::Ne, me, opp, 5));
    assert(((t0 & !(me | opp)) | (t1 & !(me | opp)) | (t2 & !(me | opp)) | (t3 & !(me | opp)) | (
    t4 & !(me | opp)) | (t5 & !(me | opp)) | (t6 & !(me | opp)) | (t7 & !(me | opp))) & (me | opp)
        == 0) by (bit_vector);
    assert(occ == me | opp || occ == opp | me);
    assert(me | opp == opp | me) by (bit_vector);
}

/// Committing any flip mask preserves the disjointness of the two sides'
/// discs.
proof fn lemma_flip_tiles_wf(b: Board, mask: u64, x_turn: bool)
    ensures
        b.wf() ==> b.spec_flip_tiles(mask, x_turn).wf(),
{
    let x = b.spec_x();
    let o = b.spec_o();
    assert(x & o == 0 ==> ((x | mask) & (o & !mask)) == 0 && ((x & !mask) & (o | mask)) == 0)
        by (bit_vector);
}

/// Playing a legal move strictly grows the set of occupied squares: the move
/// square itself was empty and becomes occupied.
proof fn lemma_apply_grows(b: Board, mv: u64, x_turn: bool)
    requires
        b.wf(),
        single_bit(mv),
        b.spec_is_legal(mv, x_turn),
    ensures
        b.spec_apply(mv, x_turn).spec_occupied() == b.spec_occupied() | (b.spec_flip_mask(
            mv,
            x_turn,
        ) & !b.spec_occupied()),
        pop64(b.spec_apply(mv, x_turn).spec_occupied()) > pop64(b.spec_occupied()),
        pop64(b.spec_apply(mv, x_turn).spec_occupied()) <= 64,
{
    let x = b.spec_x();
    let o = b.spec_o();
    let occ = b.spec_occupied();
    let me = b.spec_me_opp(x_turn).0;
    let opp = b.spec_me_opp(x_turn).1;
    let f0 = spec_flips(mv, Dir::E, me, opp);
    let f1 = spec_flips(mv, Dir::W, me, opp);
    let f2 = spec_flips(mv, Dir::N, me, opp);
    let f3 = spec_flips(mv, Dir::S, me, opp);
    let f4 = spec_flips(mv, Dir::Se, me, opp);
    let f5 = spec_flips(mv, Dir::Sw, me, opp);
    let f6 = spec_flips(mv, Dir::Nw, me, opp);
    let f7 = spec_flips(mv, Dir::Ne, me, opp);
    let mask = b.spec_flip_mask(mv, x_turn);
    assert(mask == f0 | f1 | f2 | f3 | f4 | f5 | f6 | f7 | mv);
    assert((f0 | f1 | f2 | f3 | f4 | f5 | f6 | f7 | mv) & mv == mv) by (bit_vector);
    let fresh = mask & !occ;
    let after = b.spec_apply(mv, x_turn).spec_occupied();
    // The new occupancy is the old one together with the flip mask.
    assert(((x | mask) | (o & !mask)) == (x | o) | mask && ((x & !mask) | (o | mask)) == (x | o)
        | mask) by (bit_vector);
    assert(after == occ | mask);
    // The move square is empty, part of the flip mask, and nonzero, so the
    // fresh part of the mask is nonempty and disjoint from `occ`.
    lemma_legal_moves_on_empty(b, x_turn);
    let legal = b.spec_legal_moves(x_turn);
    let k = choose|k: u64| k < 64 && mv == (1u64 << k);
    assert((occ | mask) == occ | (mask & !occ) && (mask & !occ) != 0 && occ & (mask & !occ) == 0)
        by (bit_vector)
        requires
            k < 64,
            mv == (1u64 << k),
            legal & occ == 0,
            legal & mv != 0,
            mask & mv == mv,
    ;
    lemma_pop64_grow(occ, fresh);
    lemma_popbits_le(occ | fresh, 64);
    assert(after == occ | fresh);
}

} // verus!
