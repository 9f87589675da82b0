//! A human player's data: symbol and move-notation parsing. Prompting and
//! reading input belong to the surrounding application, which also supplies
//! the interactive `Player` implementation.

use vstd::prelude::*;

use crate::bits::single_bit;
use crate::board::Board;

verus! {

pub struct Human {
    symbol: char,
}

impl Human {
    pub closed spec fn spec_symbol(&self) -> char {
        self.symbol
    }

    pub fn new(symbol: char) -> (r: Self)
        ensures
            r.spec_symbol() == symbol,
    {
        Self { symbol }
    }

    pub fn get_symbol(&self) -> (r: char)
        ensures
            r == self.spec_symbol(),
    {
        self.symbol
    }

    /// Parses a move in file-rank notation: a file letter 'a'-'h' followed
    /// by a rank digit '1'-'8', rank 8 being row 0. Returns the single-bit
    /// mask of that square, or `None` for any other input.
    pub fn parse_input(input: &str) -> (r: Option<u64>)
        ensures
            match r {
                Some(mv) => input@.len() == 2 && 'a' <= input@[0] <= 'h' && '1' <= input@[1] <= '8'
                    && mv == 1u64 << (((('8' as u64) - (input@[1] as u64)) * 8 + ((
                input@[0] as u64) - ('a' as u64))) as u64) && single_bit(mv),
                None => input@.len() != 2 || !('a' <= input@[0] <= 'h') || !('1' <= input@[1]
                    <= '8'),
            },
    {
        if input.unicode_len() != 2 {
            return None;
        }
        let file = input.get_char(0);
        let rank = input.get_char(1);
        if file < 'a' || file > 'h' || rank < '1' || rank > '8' {
            return None;
        }
        let row: u8 = (('8' as u32 - rank as u32) as u8);
        let col: u8 = ((file as u32 - 'a' as u32) as u8);
        let mv = Board::get_move(row, col);
        Some(mv)
    }
}

} // verus!
