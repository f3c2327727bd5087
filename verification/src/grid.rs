//! The board as a mathematical object: a sequence of rows, each a sequence of
//! cells, row 0 on top.

use vstd::prelude::*;

verus! {

/// Rows of the board that sessions are played on.
pub const ROWS: usize = 6;

/// Columns of the board that sessions are played on.
pub const COLUMNS: usize = 9;

/// The cell value that stands for "no piece here".
pub const EMPTY: char = '-';

/// Length of a run of equal pieces that wins the game.
pub const WINNING_RUN: usize = 5;

/// The cells of a board held as rows of vectors.
pub open spec fn cells(rows: Seq<Vec<char>>) -> Seq<Seq<char>> {
    Seq::new(rows.len(), |r: int| rows[r]@)
}

/// Number of columns: the length of the top row, 0 for a board without rows.
pub open spec fn width(g: Seq<Seq<char>>) -> nat {
    if g.len() == 0 {
        0
    } else {
        g[0].len()
    }
}

/// Every row is as long as the top row.
pub open spec fn is_rectangular(g: Seq<Seq<char>>) -> bool {
    forall|r: int| 0 <= r < g.len() ==> (#[trigger] g[r]).len() == width(g)
}

/// `g` has exactly `h` rows of `w` cells each.
pub open spec fn has_shape(g: Seq<Seq<char>>, h: nat, w: nat) -> bool {
    &&& g.len() == h
    &&& forall|r: int| 0 <= r < g.len() ==> (#[trigger] g[r]).len() == w
}

/// `(r, c)` names a cell of `g`.
pub open spec fn in_grid(g: Seq<Seq<char>>, r: int, c: int) -> bool {
    0 <= r < g.len() && 0 <= c < g[r].len()
}

/// The board with no piece on it.
pub open spec fn empty_grid(h: nat, w: nat) -> Seq<Seq<char>> {
    Seq::new(h, |r: int| Seq::new(w, |c: int| EMPTY))
}

} // verus!
