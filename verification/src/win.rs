//! The win detector: five equal pieces in a row, a column or a diagonal.

use vstd::prelude::*;
use crate::grid::{cells, in_grid, is_rectangular, width, EMPTY, WINNING_RUN};
use crate::lines::{
    column, columns, diagonal_count, diagonal_len, diagonal_lower,
    get_columns, get_diagonals_left, get_diagonals_right, left_diagonal, left_diagonals,
    right_diagonal, right_diagonals,
};
use crate::runs::{has_winning_run, line_has_win, wins_at};

verus! {

/// The direction in which a run of pieces is read.
#[derive(Debug, Clone, Copy, PartialEq, Eq)]
pub enum Heading {
    /// Along a row, left to right.
    Across,
    /// Along a column, top to bottom.
    Down,
    /// Along a diagonal, down and to the right.
    DownRight,
    /// Along a diagonal, up and to the right.
    UpRight,
}

/// Row of the cell `k` steps from row `r` in direction `d`.
pub open spec fn row_ahead(d: Heading, r: int, k: int) -> int {
    match d {
        Heading::Across => r,
        Heading::Down => r + k,
        Heading::DownRight => r + k,
        Heading::UpRight => r - k,
    }
}

/// Column of the cell `k` steps from column `c` in direction `d`.
pub open spec fn col_ahead(d: Heading, c: int, k: int) -> int {
    match d {
        Heading::Across => c + k,
        Heading::Down => c,
        Heading::DownRight => c + k,
        Heading::UpRight => c + k,
    }
}

/// The cell `k` steps from `(r, c)` in direction `d` is on the board and
/// holds what `(r, c)` holds.
pub open spec fn continues(g: Seq<Seq<char>>, d: Heading, r: int, c: int, k: int) -> bool {
    &&& in_grid(g, row_ahead(d, r, k), col_ahead(d, c, k))
    &&& g[row_ahead(d, r, k)][col_ahead(d, c, k)] == g[r][c]
}

/// `WINNING_RUN` equal pieces lie on the board from `(r, c)` on in
/// direction `d`.
pub open spec fn is_winning_run(g: Seq<Seq<char>>, d: Heading, r: int, c: int) -> bool {
    &&& in_grid(g, r, c)
    &&& g[r][c] != EMPTY
    &&& forall|k: int| 0 <= k < WINNING_RUN ==> #[trigger] continues(g, d, r, c, k)
}

/// Somewhere on the board `WINNING_RUN` equal pieces lie in a row, a column
/// or a diagonal.
pub open spec fn has_win(g: Seq<Seq<char>>) -> bool {
    exists|d: Heading, r: int, c: int| is_winning_run(g, d, r, c)
}

/// One of `lines` has a winning run.
pub open spec fn any_line_wins(lines: Seq<Seq<char>>) -> bool {
    exists|i: int| 0 <= i < lines.len() && has_winning_run(#[trigger] lines[i])
}

/// One of the rows, columns or diagonals of the board has a winning run.
pub open spec fn wins_on_a_line(g: Seq<Seq<char>>) -> bool {
    ||| any_line_wins(g)
    ||| any_line_wins(columns(g))
    ||| any_line_wins(left_diagonals(g))
    ||| any_line_wins(right_diagonals(g))
}

/// Every cell of diagonal `p` is on the board.
proof fn lemma_diagonal_on_board(g: Seq<Seq<char>>, p: int, j: int)
    requires
        is_rectangular(g),
        0 <= p < diagonal_count(g),
        0 <= j < diagonal_len(g, p),
    ensures
        in_grid(g, g.len() - p + (diagonal_lower(g, p) + j) - 1, diagonal_lower(g, p) + j),
        in_grid(g, p - (diagonal_lower(g, p) + j), diagonal_lower(g, p) + j),
        left_diagonal(g, p)[j] == g[g.len() - p + (diagonal_lower(g, p) + j) - 1][diagonal_lower(
            g,
            p,
        ) + j],
        right_diagonal(g, p)[j] == g[p - (diagonal_lower(g, p) + j)][diagonal_lower(g, p) + j],
{
}

/// A winning run on a row, a column or a diagonal is a winning run on the
/// board.
proof fn lemma_line_win_is_on_board(g: Seq<Seq<char>>)
    requires
        is_rectangular(g),
        wins_on_a_line(g),
    ensures
        has_win(g),
{
    if any_line_wins(g) {
        let i = choose|i: int| 0 <= i < g.len() && has_winning_run(#[trigger] g[i]);
        let s = choose|s: int| wins_at(g[i], s);
        assert(is_winning_run(g, Heading::Across, i, s));
    } else if any_line_wins(columns(g)) {
        let cols = columns(g);
        let c = choose|c: int| 0 <= c < cols.len() && has_winning_run(#[trigger] cols[c]);
        let s = choose|s: int| wins_at(cols[c], s);
        assert forall|k: int| 0 <= k < WINNING_RUN implies #[trigger] continues(
            g,
            Heading::Down,
            s,
            c,
            k,
        ) by {
            assert(cols[c][s + k] == cols[c][s]);
        }
        assert(is_winning_run(g, Heading::Down, s, c));
    } else if any_line_wins(left_diagonals(g)) {
        let diags = left_diagonals(g);
        let p = choose|p: int| 0 <= p < diags.len() && has_winning_run(#[trigger] diags[p]);
        let s = choose|s: int| wins_at(diags[p], s);
        let c = diagonal_lower(g, p) + s;
        let r = g.len() - p + c - 1;
        assert forall|k: int| 0 <= k < WINNING_RUN implies #[trigger] continues(
            g,
            Heading::DownRight,
            r,
            c,
            k,
        ) by {
            lemma_diagonal_on_board(g, p, s + k);
        }
        assert(is_winning_run(g, Heading::DownRight, r, c));
    } else {
        let diags = right_diagonals(g);
        let p = choose|p: int| 0 <= p < diags.len() && has_winning_run(#[trigger] diags[p]);
        let s = choose|s: int| wins_at(diags[p], s);
        let c = diagonal_lower(g, p) + s;
        let r = p - c;
        assert forall|k: int| 0 <= k < WINNING_RUN implies #[trigger] continues(
            g,
            Heading::UpRight,
            r,
            c,
            k,
        ) by {
            lemma_diagonal_on_board(g, p, s + k);
        }
        assert(is_winning_run(g, Heading::UpRight, r, c));
    }
}

/// A winning run on the board lies on a row, a column or a diagonal.
proof fn lemma_board_win_is_on_line(g: Seq<Seq<char>>, d: Heading, r: int, c: int)
    requires
        is_rectangular(g),
        is_winning_run(g, d, r, c),
    ensures
        wins_on_a_line(g),
{
    // The last cell of the run is on the board, so the run fits its line.
    let last = WINNING_RUN - 1;
    assert(continues(g, d, r, c, last));
    match d {
        Heading::Across => {
            assert forall|x: int| c <= x < c + WINNING_RUN implies (#[trigger] g[r][x]) == g[r][c] by {
                assert(continues(g, d, r, c, x - c));
            }
            assert(wins_at(g[r], c));
        },
        Heading::Down => {
            let line = column(g, c);
            assert forall|y: int| r <= y < r + WINNING_RUN implies (#[trigger] line[y]) == line[r] by {
                assert(continues(g, d, r, c, y - r));
            }
            assert(wins_at(line, r));
            assert(columns(g)[c] == line);
        },
        Heading::DownRight => {
            let p = g.len() - 1 - r + c;
            let s = c - diagonal_lower(g, p);
            let line = left_diagonal(g, p);
            assert forall|j: int| s <= j < s + WINNING_RUN implies (#[trigger] line[j]) == line[s] by {
                assert(continues(g, d, r, c, j - s));
            }
            assert(wins_at(line, s));
            assert(left_diagonals(g)[p] == line);
        },
        Heading::UpRight => {
            let p = r + c;
            let s = c - diagonal_lower(g, p);
            let line = right_diagonal(g, p);
            assert forall|j: int| s <= j < s + WINNING_RUN implies (#[trigger] line[j]) == line[s] by {
                assert(continues(g, d, r, c, j - s));
            }
            assert(wins_at(line, s));
            assert(right_diagonals(g)[p] == line);
        },
    }
}

/// On a rectangular board, scanning the rows, the columns and the diagonals
/// of both slopes for a winning run finds exactly the winning runs of the
/// board.
pub proof fn lemma_win_lies_on_a_line(g: Seq<Seq<char>>)
    requires
        is_rectangular(g),
    ensures
        has_win(g) <==> wins_on_a_line(g),
{
    if has_win(g) {
        let (d, r, c) = choose|d: Heading, r: int, c: int| is_winning_run(g, d, r, c);
        lemma_board_win_is_on_line(g, d, r, c);
    }
    if wins_on_a_line(g) {
        lemma_line_win_is_on_board(g);
    }
}

/// Whether one of `lines` has a winning run.
pub fn any_line_has_win(lines: &[Vec<char>]) -> (won: bool)
    ensures
        won == any_line_wins(cells(lines@)),
{
    let mut i: usize = 0;
    while i < lines.len()
        invariant
            i <= lines.len(),
            forall|j: int| 0 <= j < i ==> !has_winning_run(#[trigger] cells(lines@)[j]),
        decreases lines.len() - i,
    {
        if line_has_win(&lines[i]) {
            assert(has_winning_run(cells(lines@)[i as int]));
            return true;
        }
        i += 1;
    }
    false
}

/// Whether the board holds `WINNING_RUN` equal pieces in a row, a column or
/// a diagonal. The board may have any number of rows and columns.
pub fn is_winner(board: &[Vec<char>]) -> (won: bool)
    requires
        is_rectangular(cells(board@)),
        board@.len() + width(cells(board@)) <= usize::MAX,
    ensures
        won == has_win(cells(board@)),
{
    proof {
        lemma_win_lies_on_a_line(cells(board@));
    }
    if any_line_has_win(board) {
        return true;
    }
    let cols = get_columns(board);
    if any_line_has_win(cols.as_slice()) {
        return true;
    }
    let diags_left = get_diagonals_left(board);
    if any_line_has_win(diags_left.as_slice()) {
        return true;
    }
    let diags_right = get_diagonals_right(board);
    any_line_has_win(diags_right.as_slice())
}

/// A column whose lowest `WINNING_RUN` cells hold the same piece wins.
pub proof fn lemma_stack_of_five_wins(g: Seq<Seq<char>>, c: int, color: char)
    requires
        is_rectangular(g),
        0 <= c < width(g),
        g.len() >= WINNING_RUN,
        color != EMPTY,
        forall|r: int| g.len() - WINNING_RUN <= r < g.len() ==> #[trigger] g[r][c] == color,
    ensures
        has_win(g),
{
    let top = g.len() - WINNING_RUN;
    assert(is_winning_run(g, Heading::Down, top, c));
}

} // verus!
