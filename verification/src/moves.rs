//! The move engine: a piece dropped into a column comes to rest on whatever
//! is stacked below it.

use vstd::prelude::*;
use crate::error::GameError;
use crate::grid::{cells, is_rectangular, width, EMPTY};

verus! {

/// Row `r` is where a piece dropped into column `c` comes to rest: the cell
/// is empty and no cell below it is.
pub open spec fn is_landing_row(g: Seq<Seq<char>>, c: int, r: int) -> bool {
    &&& 0 <= r < g.len()
    &&& g[r][c] == EMPTY
    &&& forall|below: int| r < below < g.len() ==> #[trigger] g[below][c] != EMPTY
}

/// No cell of column `c` is empty.
pub open spec fn column_full(g: Seq<Seq<char>>, c: int) -> bool {
    forall|r: int| 0 <= r < g.len() ==> #[trigger] g[r][c] != EMPTY
}

/// Every cell of column `c` is empty.
pub open spec fn column_empty(g: Seq<Seq<char>>, c: int) -> bool {
    forall|r: int| 0 <= r < g.len() ==> #[trigger] g[r][c] == EMPTY
}

/// The row in which a piece dropped into column `c` comes to rest, if the
/// column has an empty cell.
pub open spec fn landing_row(g: Seq<Seq<char>>, c: int) -> int {
    choose|r: int| is_landing_row(g, c, r)
}

/// The board with `color` in cell `(r, c)` and every other cell as it was.
pub open spec fn place(g: Seq<Seq<char>>, r: int, c: int, color: char) -> Seq<Seq<char>> {
    g.update(r, g[r].update(c, color))
}

/// What a move does. Columns are counted from 1. A column that is not on the
/// board is `InvalidColumn`; one without an empty cell is `ColumnFull`;
/// otherwise the piece lands in the lowest empty cell of the column.
pub open spec fn apply_move(g: Seq<Seq<char>>, col_num: int, color: char) -> Result<
    Seq<Seq<char>>,
    GameError,
> {
    if col_num < 1 || col_num > width(g) {
        Err(GameError::InvalidColumn { max_column: width(g) as usize })
    } else if column_full(g, col_num - 1) {
        Err(GameError::ColumnFull)
    } else {
        Ok(place(g, landing_row(g, col_num - 1), col_num - 1, color))
    }
}

/// A column has at most one landing row, and none when it is full.
pub proof fn lemma_landing_row_unique(g: Seq<Seq<char>>, c: int, r: int)
    requires
        is_landing_row(g, c, r),
    ensures
        landing_row(g, c) == r,
        !column_full(g, c),
{
}

/// A column that is not full has a landing row.
pub proof fn lemma_landing_row_exists(g: Seq<Seq<char>>, c: int)
    requires
        !column_full(g, c),
    ensures
        is_landing_row(g, c, landing_row(g, c)),
{
    lemma_lowest_empty(g, c, g.len() as int);
}

/// The lowest empty cell of column `c` above row `below`, given that all
/// cells from `below` down are taken and the column is not full.
proof fn lemma_lowest_empty(g: Seq<Seq<char>>, c: int, below: int) -> (r: int)
    requires
        0 <= below <= g.len(),
        !column_full(g, c),
        forall|x: int| below <= x < g.len() ==> #[trigger] g[x][c] != EMPTY,
    ensures
        is_landing_row(g, c, r),
    decreases below,
{
    if below == 0 {
        0
    } else if g[below - 1][c] == EMPTY {
        below - 1
    } else {
        lemma_lowest_empty(g, c, below - 1)
    }
}

/// A copy of `row` with `color` in cell `c`.
fn row_with(row: &Vec<char>, c: usize, color: char) -> (out: Vec<char>)
    requires
        c < row@.len(),
    ensures
        out@ == row@.update(c as int, color),
{
    let mut out: Vec<char> = Vec::new();
    let mut x: usize = 0;
    while x < row.len()
        invariant
            x <= row.len(),
            c < row@.len(),
            out@ == row@.update(c as int, color).take(x as int),
        decreases row.len() - x,
    {
        if x == c {
            out.push(color);
        } else {
            out.push(row[x]);
        }
        x += 1;
    }
    out
}

/// A copy of `row`.
fn row_copy(row: &Vec<char>) -> (out: Vec<char>)
    ensures
        out@ == row@,
{
    let mut out: Vec<char> = Vec::new();
    let mut x: usize = 0;
    while x < row.len()
        invariant
            x <= row.len(),
            out@ == row@.take(x as int),
        decreases row.len() - x,
    {
        out.push(row[x]);
        x += 1;
    }
    out
}

/// Drops a piece of `color` into column `col_num`, counted from 1, and
/// returns the board after the move. The board handed in is left as it was.
pub fn do_move(col_num: usize, board: &[Vec<char>], color: char) -> (res: Result<
    Vec<Vec<char>>,
    GameError,
>)
    requires
        is_rectangular(cells(board@)),
    ensures
        match res {
            Ok(new_board) => apply_move(cells(board@), col_num as int, color) == Ok::<
                Seq<Seq<char>>,
                GameError,
            >(cells(new_board@)),
            Err(e) => apply_move(cells(board@), col_num as int, color) == Err::<
                Seq<Seq<char>>,
                GameError,
            >(e),
        },
{
    let ghost g = cells(board@);
    let h: usize = board.len();
    let w: usize = if h == 0 {
        0
    } else {
        board[0].len()
    };
    if col_num < 1 || col_num > w {
        return Err(GameError::InvalidColumn { max_column: w });
    }
    let c: usize = col_num - 1;
    let mut y_curr: Option<usize> = None;
    let mut y: usize = 0;
    while y < h
        invariant
            y <= h,
            h == board.len(),
            g == cells(board@),
            is_rectangular(g),
            c < w,
            w == width(g),
            match y_curr {
                Some(row_num) => row_num < y && g[row_num as int][c as int] == EMPTY && forall|
                    x: int,
                | row_num < x < y ==> #[trigger] g[x][c as int] != EMPTY,
                None => forall|x: int| 0 <= x < y ==> #[trigger] g[x][c as int] != EMPTY,
            },
        decreases h - y,
    {
        assert(g[y as int].len() == w);
        if board[y][c] == EMPTY {
            y_curr = Some(y);
        }
        y += 1;
    }
    match y_curr {
        Some(row_num) => {
            proof {
                lemma_landing_row_unique(g, c as int, row_num as int);
            }
            let mut new_board: Vec<Vec<char>> = Vec::new();
            let mut r: usize = 0;
            while r < h
                invariant
                    r <= h,
                    h == board.len(),
                    g == cells(board@),
                    is_rectangular(g),
                    row_num < h,
                    c < w,
                    w == width(g),
                    new_board@.len() == r,
                    forall|x: int|
                        0 <= x < r ==> (#[trigger] new_board@[x])@ == place(
                            g,
                            row_num as int,
                            c as int,
                            color,
                        )[x],
                decreases h - r,
            {
                assert(g[r as int].len() == w);
                if r == row_num {
                    new_board.push(row_with(&board[r], c, color));
                } else {
                    new_board.push(row_copy(&board[r]));
                }
                r += 1;
            }
            assert(cells(new_board@) =~= place(g, row_num as int, c as int, color));
            Ok(new_board)
        },
        None => Err(GameError::ColumnFull),
    }
}

/// Dropping the pieces `colors`, one after the other, into column `col_num`.
/// The first move that fails ends the sequence with its error.
pub open spec fn apply_moves(g: Seq<Seq<char>>, col_num: int, colors: Seq<char>) -> Result<
    Seq<Seq<char>>,
    GameError,
>
    decreases colors.len(),
{
    if colors.len() == 0 {
        Ok(g)
    } else {
        match apply_moves(g, col_num, colors.drop_last()) {
            Ok(before) => apply_move(before, col_num, colors.last()),
            Err(e) => Err(e),
        }
    }
}

/// The board with `colors` stacked in column `c` from the bottom row up, and
/// every other cell as it was.
pub open spec fn stacked(g: Seq<Seq<char>>, c: int, colors: Seq<char>) -> Seq<Seq<char>> {
    Seq::new(
        g.len(),
        |r: int|
            if g.len() - 1 - r < colors.len() {
                g[r].update(c, colors[g.len() - 1 - r])
            } else {
                g[r]
            },
    )
}

/// A piece dropped into an empty column lands in the bottom row.
pub proof fn lemma_empty_column_lands_at_bottom(g: Seq<Seq<char>>, col_num: int, color: char)
    requires
        is_rectangular(g),
        1 <= col_num <= width(g),
        column_empty(g, col_num - 1),
    ensures
        apply_move(g, col_num, color) == Ok::<Seq<Seq<char>>, GameError>(
            place(g, g.len() - 1, col_num - 1, color),
        ),
{
    lemma_landing_row_unique(g, col_num - 1, g.len() - 1);
}

/// Pieces dropped into an empty column, one after the other and no more
/// than the column has cells, fill it from the bottom up, in the order in
/// which they were dropped. Once as many pieces were dropped as the column
/// has cells, the column is full.
pub proof fn lemma_column_fills_bottom_up(g: Seq<Seq<char>>, col_num: int, colors: Seq<char>)
    requires
        is_rectangular(g),
        1 <= col_num <= width(g),
        column_empty(g, col_num - 1),
        colors.len() <= g.len(),
        forall|i: int| 0 <= i < colors.len() ==> colors[i] != EMPTY,
    ensures
        apply_moves(g, col_num, colors) == Ok::<Seq<Seq<char>>, GameError>(
            stacked(g, col_num - 1, colors),
        ),
        is_rectangular(stacked(g, col_num - 1, colors)),
        width(stacked(g, col_num - 1, colors)) == width(g),
        colors.len() == g.len() ==> column_full(stacked(g, col_num - 1, colors), col_num - 1),
    decreases colors.len(),
{
    let c = col_num - 1;
    let h = g.len() as int;
    let after = stacked(g, c, colors);
    if colors.len() == 0 {
        assert(after =~= g);
    } else {
        let k = colors.len() - 1;
        let earlier = colors.drop_last();
        lemma_column_fills_bottom_up(g, col_num, earlier);
        let before = stacked(g, c, earlier);
        let r = h - 1 - k;
        lemma_landing_row_unique(before, c, r);
        let moved = place(before, r, c, colors.last());
        assert(moved =~= after);
    }
}

/// A piece dropped into a full column is rejected as `ColumnFull`.
pub proof fn lemma_full_column_is_rejected(g: Seq<Seq<char>>, col_num: int, color: char)
    requires
        is_rectangular(g),
        1 <= col_num <= width(g),
        column_full(g, col_num - 1),
    ensures
        apply_move(g, col_num, color) == Err::<Seq<Seq<char>>, GameError>(GameError::ColumnFull),
{
}

/// A move leaves the shape of the board as it was, and changes one cell: the
/// landing cell, which was empty and now holds the piece.
pub proof fn lemma_move_changes_one_cell(g: Seq<Seq<char>>, col_num: int, color: char)
    requires
        is_rectangular(g),
        apply_move(g, col_num, color) is Ok,
    ensures
        ({
            let after = apply_move(g, col_num, color)->Ok_0;
            let r = landing_row(g, col_num - 1);
            &&& is_landing_row(g, col_num - 1, r)
            &&& is_rectangular(after)
            &&& after.len() == g.len()
            &&& width(after) == width(g)
            &&& after[r][col_num - 1] == color
            &&& forall|x: int, y: int|
                0 <= x < g.len() && 0 <= y < width(g) && (x != r || y != col_num - 1)
                    ==> #[trigger] after[x][y] == g[x][y]
        }),
{
    lemma_landing_row_exists(g, col_num - 1);
}

} // verus!
