//! The four families of lines that a winning run can lie on: rows, columns,
//! and the diagonals of both slopes.

use vstd::prelude::*;
use crate::grid::{cells, is_rectangular, width};

verus! {

/// Column `c` of the board, read from the top row down.
pub open spec fn column(g: Seq<Seq<char>>, c: int) -> Seq<char> {
    Seq::new(g.len(), |r: int| g[r][c])
}

/// All columns, left to right: the transpose of the board.
pub open spec fn columns(g: Seq<Seq<char>>) -> Seq<Seq<char>> {
    Seq::new(width(g), |c: int| column(g, c))
}

/// Number of diagonals of one slope: `H + W - 1`, and none on a board
/// without rows.
pub open spec fn diagonal_count(g: Seq<Seq<char>>) -> nat {
    if g.len() + width(g) == 0 {
        0
    } else {
        (g.len() + width(g) - 1) as nat
    }
}

/// First column that diagonal `p` crosses: `max(0, p - H + 1)`.
pub open spec fn diagonal_lower(g: Seq<Seq<char>>, p: int) -> int {
    if p - g.len() + 1 > 0 {
        p - g.len() + 1
    } else {
        0
    }
}

/// One past the last column that diagonal `p` crosses: `min(p + 1, W)`.
pub open spec fn diagonal_upper(g: Seq<Seq<char>>, p: int) -> int {
    if p + 1 < width(g) {
        p + 1
    } else {
        width(g) as int
    }
}

/// Number of cells on diagonal `p`.
pub open spec fn diagonal_len(g: Seq<Seq<char>>, p: int) -> nat {
    if diagonal_upper(g, p) > diagonal_lower(g, p) {
        (diagonal_upper(g, p) - diagonal_lower(g, p)) as nat
    } else {
        0
    }
}

/// Diagonal `p` of the family that runs down and to the right. Diagonal 0 is
/// the bottom-left corner; the cell in column `col` is in row
/// `H - p + col - 1`.
pub open spec fn left_diagonal(g: Seq<Seq<char>>, p: int) -> Seq<char> {
    Seq::new(
        diagonal_len(g, p),
        |j: int| g[g.len() - p + (diagonal_lower(g, p) + j) - 1][diagonal_lower(g, p) + j],
    )
}

/// Diagonal `p` of the family that runs up and to the right. Diagonal 0 is
/// the top-left corner; the cell in column `col` is in row `p - col`.
pub open spec fn right_diagonal(g: Seq<Seq<char>>, p: int) -> Seq<char> {
    Seq::new(
        diagonal_len(g, p),
        |j: int| g[p - (diagonal_lower(g, p) + j)][diagonal_lower(g, p) + j],
    )
}

/// The diagonals that run down and to the right, from the bottom-left corner
/// to the top-right one.
pub open spec fn left_diagonals(g: Seq<Seq<char>>) -> Seq<Seq<char>> {
    Seq::new(diagonal_count(g), |p: int| left_diagonal(g, p))
}

/// The diagonals that run up and to the right, from the top-left corner to
/// the bottom-right one.
pub open spec fn right_diagonals(g: Seq<Seq<char>>) -> Seq<Seq<char>> {
    Seq::new(diagonal_count(g), |p: int| right_diagonal(g, p))
}

/// The columns of a rectangular board.
pub fn get_columns(board: &[Vec<char>]) -> (cols: Vec<Vec<char>>)
    requires
        is_rectangular(cells(board@)),
    ensures
        cells(cols@) == columns(cells(board@)),
{
    let h: usize = board.len();
    let w: usize = if h == 0 {
        0
    } else {
        board[0].len()
    };
    let ghost g = cells(board@);
    let mut cols: Vec<Vec<char>> = Vec::new();
    let mut col_idx: usize = 0;
    while col_idx < w
        invariant
            col_idx <= w,
            h == board.len(),
            w == width(g),
            g == cells(board@),
            is_rectangular(g),
            cols@.len() == col_idx,
            forall|c: int| 0 <= c < col_idx ==> (#[trigger] cols@[c])@ == column(g, c),
        decreases w - col_idx,
    {
        let mut col: Vec<char> = Vec::new();
        let mut row_idx: usize = 0;
        while row_idx < h
            invariant
                row_idx <= h,
                col_idx < w,
                h == board.len(),
                w == width(g),
                g == cells(board@),
                is_rectangular(g),
                col@ == column(g, col_idx as int).take(row_idx as int),
            decreases h - row_idx,
        {
            assert(g[row_idx as int].len() == w);
            col.push(board[row_idx][col_idx]);
            row_idx += 1;
        }
        cols.push(col);
        col_idx += 1;
    }
    cols
}

/// The diagonals that run down and to the right, from the bottom-left corner
/// to the top-right one. Diagonal `p` holds, for each column `col` from
/// `max(0, p - H + 1)` up to but not including `min(p + 1, W)`, the cell in
/// row `H - p + col - 1`.
pub fn get_diagonals_left(board: &[Vec<char>]) -> (diags: Vec<Vec<char>>)
    requires
        is_rectangular(cells(board@)),
        board@.len() + width(cells(board@)) <= usize::MAX,
    ensures
        cells(diags@) == left_diagonals(cells(board@)),
{
    let h: usize = board.len();
    let w: usize = if h == 0 {
        0
    } else {
        board[0].len()
    };
    let count: usize = if h + w == 0 {
        0
    } else {
        h + w - 1
    };
    let ghost g = cells(board@);
    let mut diags: Vec<Vec<char>> = Vec::new();
    let mut p: usize = 0;
    while p < count
        invariant
            p <= count,
            h == board.len(),
            w == width(g),
            h + w <= usize::MAX,
            count == diagonal_count(g),
            g == cells(board@),
            is_rectangular(g),
            diags@.len() == p,
            forall|q: int| 0 <= q < p ==> (#[trigger] diags@[q])@ == left_diagonal(g, q),
        decreases count - p,
    {
        let lower_bound: usize = if p + 1 > h {
            p + 1 - h
        } else {
            0
        };
        let higher_bound: usize = if p + 1 < w {
            p + 1
        } else {
            w
        };
        let mut d: Vec<char> = Vec::new();
        let mut col: usize = lower_bound;
        while col < higher_bound
            invariant
                lower_bound <= col,
                col <= higher_bound || higher_bound < lower_bound,
                p < count,
                h == board.len(),
                w == width(g),
                h + w <= usize::MAX,
                count == diagonal_count(g),
                g == cells(board@),
                is_rectangular(g),
                lower_bound == diagonal_lower(g, p as int),
                higher_bound == diagonal_upper(g, p as int),
                d@ == left_diagonal(g, p as int).take(col - lower_bound),
            decreases higher_bound - col,
        {
            let row: usize = h + col - 1 - p;
            assert(g[row as int].len() == w);
            d.push(board[row][col]);
            col += 1;
        }
        diags.push(d);
        p += 1;
    }
    diags
}

/// The diagonals that run up and to the right, from the top-left corner to
/// the bottom-right one. Diagonal `p` holds, for each column `col` from
/// `max(0, p - H + 1)` up to but not including `min(p + 1, W)`, the cell in
/// row `p - col`.
pub fn get_diagonals_right(board: &[Vec<char>]) -> (diags: Vec<Vec<char>>)
    requires
        is_rectangular(cells(board@)),
        board@.len() + width(cells(board@)) <= usize::MAX,
    ensures
        cells(diags@) == right_diagonals(cells(board@)),
{
    let h: usize = board.len();
    let w: usize = if h == 0 {
        0
    } else {
        board[0].len()
    };
    let count: usize = if h + w == 0 {
        0
    } else {
        h + w - 1
    };
    let ghost g = cells(board@);
    let mut diags: Vec<Vec<char>> = Vec::new();
    let mut p: usize = 0;
    while p < count
        invariant
            p <= count,
            h == board.len(),
            w == width(g),
            h + w <= usize::MAX,
            count == diagonal_count(g),
            g == cells(board@),
            is_rectangular(g),
            diags@.len() == p,
            forall|q: int| 0 <= q < p ==> (#[trigger] diags@[q])@ == right_diagonal(g, q),
        decreases count - p,
    {
        let lower_bound: usize = if p + 1 > h {
            p + 1 - h
        } else {
            0
        };
        let higher_bound: usize = if p + 1 < w {
            p + 1
        } else {
            w
        };
        let mut d: Vec<char> = Vec::new();
        let mut col: usize = lower_bound;
        while col < higher_bound
            invariant
                lower_bound <= col,
                col <= higher_bound || higher_bound < lower_bound,
                p < count,
                h == board.len(),
                w == width(g),
                h + w <= usize::MAX,
                count == diagonal_count(g),
                g == cells(board@),
                is_rectangular(g),
                lower_bound == diagonal_lower(g, p as int),
                higher_bound == diagonal_upper(g, p as int),
                d@ == right_diagonal(g, p as int).take(col - lower_bound),
            decreases higher_bound - col,
        {
            let row: usize = p - col;
            assert(g[row as int].len() == w);
            d.push(board[row][col]);
            col += 1;
        }
        diags.push(d);
        p += 1;
    }
    diags
}

} // verus!
