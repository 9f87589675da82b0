//! ANSI terminal colors for rendering the two sides.

use vstd::prelude::*;

verus! {

pub const RESET: &'static str = "\x1b[0m";
pub const LIGHT_CYAN: &'static str = "\x1b[96m";
pub const LIGHT_MAGENTA: &'static str = "\x1b[95m";

/// Wraps `text` in the given ANSI code, followed by a reset code.
pub fn color(text: &str, ansi: &str) -> (r: String)
    ensures
        r@ == ansi@ + text@ + RESET@,
{
    let mut s = String::from_str(ansi);
    s.append(text);
    s.append(RESET);
    s
}

/// The ANSI color for a symbol: cyan for x, magenta for o, reset otherwise.
pub fn ansi_for(symbol: char) -> (r: &'static str)
    ensures
        symbol == 'x' ==> r@ == LIGHT_CYAN@,
        symbol == 'o' ==> r@ == LIGHT_MAGENTA@,
        symbol != 'x' && symbol != 'o' ==> r@ == RESET@,
{
    match symbol {
        'x' => LIGHT_CYAN,
        'o' => LIGHT_MAGENTA,
        _ => RESET,
    }
}

} // verus!

