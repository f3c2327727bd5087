//! The wire form of a board: one character per cell, row after row.

use vstd::prelude::*;
use crate::error::GameError;
use crate::grid::{cells, has_shape, COLUMNS, ROWS};

verus! {

/// The text of a board: its rows, one after the other.
pub open spec fn encode(g: Seq<Seq<char>>) -> Seq<char> {
    g.flatten()
}

/// The board of `rows` rows and `cols` columns that `text` spells out.
pub open spec fn decode(text: Seq<char>, rows: nat, cols: nat) -> Seq<Seq<char>> {
    Seq::new(rows, |r: int| text.subrange(r * cols, r * cols + cols))
}

/// Offsets of consecutive rows in the text differ by the row length, and no
/// row of the board reaches past the end of the text.
proof fn lemma_row_bounds(r: int, h: int, w: int)
    requires
        0 <= r < h,
        0 <= w,
    ensures
        0 <= r * w,
        (r + 1) * w == r * w + w,
        r * w + w <= h * w,
{
    assert(0 <= r * w) by (nonlinear_arith)
        requires
            0 <= r,
            0 <= w,
    ;
    assert((r + 1) * w == r * w + w) by (nonlinear_arith);
    assert((r + 1) * w <= h * w) by (nonlinear_arith)
        requires
            r + 1 <= h,
            0 <= w,
    ;
}

/// The first `k` rows that `text` spells out, one after the other, are the
/// first `k * w` characters of `text`.
proof fn lemma_decoded_prefix(text: Seq<char>, h: nat, w: nat, k: nat)
    requires
        text.len() == h * w,
        k <= h,
    ensures
        0 <= k * w <= text.len(),
        decode(text, h, w).take(k as int).flatten() == text.subrange(0, (k * w) as int),
    decreases k,
{
    let d = decode(text, h, w);
    if k == 0 {
        assert(k * w == 0) by (nonlinear_arith)
            requires
                k == 0,
        ;
    } else {
        let j = (k - 1) as nat;
        lemma_decoded_prefix(text, h, w, j);
        lemma_row_bounds(j as int, h as int, w as int);
        assert(d.take(k as int) == d.take(j as int).push(d[j as int]));
        d.take(j as int).lemma_flatten_push(d[j as int]);
    }
}

/// The first `k` rows of a board of width `w`, one after the other, take up
/// `k * w` characters, and each of those rows can be cut out again.
proof fn lemma_encoded_prefix(g: Seq<Seq<char>>, h: nat, w: nat, k: nat)
    requires
        has_shape(g, h, w),
        k <= h,
    ensures
        g.take(k as int).flatten().len() == k * w,
        forall|r: int|
            0 <= r < k ==> g.take(k as int).flatten().subrange(r * w, r * w + w) == #[trigger] g[r],
    decreases k,
{
    if k == 0 {
        assert(k * w == 0) by (nonlinear_arith)
            requires
                k == 0,
        ;
    } else {
        let j = (k - 1) as nat;
        lemma_encoded_prefix(g, h, w, j);
        lemma_row_bounds(j as int, h as int, w as int);
        let now = g.take(k as int).flatten();
        assert(g.take(k as int) == g.take(j as int).push(g[j as int]));
        g.take(j as int).lemma_flatten_push(g[j as int]);
        assert forall|r: int| 0 <= r < k implies now.subrange(r * w, r * w + w) == #[trigger] g[r] by {
            if r < j {
                lemma_row_bounds(r, j as int, w as int);
            }
        }
    }
}

/// A board of `h` rows and `w` columns is spelt with `h * w` characters, and
/// reading them back gives the same board.
pub proof fn lemma_decode_encode(g: Seq<Seq<char>>, h: nat, w: nat)
    requires
        has_shape(g, h, w),
    ensures
        encode(g).len() == h * w,
        decode(encode(g), h, w) == g,
{
    lemma_encoded_prefix(g, h, w, h);
    assert(g.take(h as int) == g);
}

/// A text of `h * w` characters, read as a board of `h` rows and `w` columns
/// and spelt out again, is the same text.
pub proof fn lemma_encode_decode(text: Seq<char>, h: nat, w: nat)
    requires
        text.len() == h * w,
    ensures
        has_shape(decode(text, h, w), h, w),
        encode(decode(text, h, w)) == text,
{
    let d = decode(text, h, w);
    lemma_decoded_prefix(text, h, w, h);
    assert(d.take(h as int) == d);
    assert forall|r: int| 0 <= r < d.len() implies (#[trigger] d[r]).len() == w by {
        lemma_row_bounds(r, h as int, w as int);
    }
}

/// Spells a board out as text, row after row. Works on any rows, of equal
/// length or not.
pub fn arr_to_str(board: &[Vec<char>]) -> (text: String)
    ensures
        text@ == encode(cells(board@)),
{
    let mut text = String::new();
    let mut r: usize = 0;
    while r < board.len()
        invariant
            r <= board.len(),
            text@ == encode(cells(board@).take(r as int)),
        decreases board.len() - r,
    {
        let row = &board[r];
        let mut c: usize = 0;
        while c < row.len()
            invariant
                c <= row.len(),
                text@ == encode(cells(board@).take(r as int)) + row@.take(c as int),
            decreases row.len() - c,
        {
            text.push(row[c]);
            c += 1;
        }
        proof {
            let g = cells(board@);
            assert(g.take(r + 1) == g.take(r as int).push(row@));
            g.take(r as int).lemma_flatten_push(row@);
        }
        r += 1;
    }
    assert(cells(board@).take(r as int) == cells(board@));
    text
}

/// The characters of `text`, in order.
fn chars_of(text: &str) -> (v: Vec<char>)
    ensures
        v@ == text@,
{
    let mut v: Vec<char> = Vec::new();
    for ch in it: text.chars()
        invariant
            v@ == it.seq().take(it.index() as int),
    {
        v.push(ch);
    }
    v
}

/// Reads the text of a board of `ROWS` rows and `COLUMNS` columns. A text of
/// any other length is rejected as `MalformedBoard`.
pub fn str_to_arr(board_str: &str) -> (res: Result<Vec<Vec<char>>, GameError>)
    ensures
        res is Ok <==> board_str@.len() == ROWS * COLUMNS,
        res matches Ok(board) ==> cells(board@) == decode(board_str@, ROWS as nat, COLUMNS as nat),
        res matches Err(e) ==> e == GameError::MalformedBoard,
{
    let chars = chars_of(board_str);
    if chars.len() != ROWS * COLUMNS {
        return Err(GameError::MalformedBoard);
    }
    let mut board_arr: Vec<Vec<char>> = Vec::new();
    let mut y: usize = 0;
    while y < ROWS
        invariant
            y <= ROWS,
            chars@ == board_str@,
            chars@.len() == ROWS * COLUMNS,
            board_arr@.len() == y,
            forall|r: int|
                0 <= r < y ==> (#[trigger] board_arr@[r])@ == board_str@.subrange(
                    r * COLUMNS,
                    r * COLUMNS + COLUMNS,
                ),
        decreases ROWS - y,
    {
        let first_idx: usize = y * COLUMNS;
        let mut row: Vec<char> = Vec::new();
        let mut x: usize = 0;
        while x < COLUMNS
            invariant
                x <= COLUMNS,
                y < ROWS,
                first_idx == y * COLUMNS,
                chars@.len() == ROWS * COLUMNS,
                row@ == chars@.subrange(first_idx as int, first_idx + x),
            decreases COLUMNS - x,
        {
            row.push(chars[first_idx + x]);
            x += 1;
        }
        board_arr.push(row);
        y += 1;
    }
    Ok(board_arr)
}

} // verus!
