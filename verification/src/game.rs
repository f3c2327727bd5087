//! A move on a session: read the board, drop the piece, look for a winner,
//! and write the board back.

use vstd::prelude::*;
use crate::codec::{arr_to_str, decode, encode, lemma_decode_encode, str_to_arr};
use crate::error::GameError;
use crate::grid::{cells, empty_grid, COLUMNS, EMPTY, ROWS, WINNING_RUN};
use crate::models::{clone_text, text_of, ClientStateView, GameState, GameStateView, NewGameState};
use crate::moves::{
    apply_move, do_move, lemma_column_fills_bottom_up, lemma_move_changes_one_cell, stacked,
};
use crate::win::{has_win, is_winner, lemma_stack_of_five_wins};

verus! {

/// The session after the player `user_id` drops a piece of `color` into
/// column `col_num`, counted from 1. The board is read as `ROWS` rows of
/// `COLUMNS` cells; a session whose board is missing or of another length
/// is `MalformedBoard`. After a move the session holds the new board and
/// names the player as its last mover, and it is won and ended exactly when
/// the new board has a winning run. Everything else stays as it was.
pub open spec fn after_move(
    s: GameStateView,
    user_id: Seq<char>,
    col_num: int,
    color: char,
) -> Result<GameStateView, GameError> {
    match s.board {
        None => Err(GameError::MalformedBoard),
        Some(text) => if text.len() != ROWS * COLUMNS {
            Err(GameError::MalformedBoard)
        } else {
            match apply_move(decode(text, ROWS as nat, COLUMNS as nat), col_num, color) {
                Err(e) => Err(e),
                Ok(g) => Ok(
                    GameStateView {
                        id: s.id,
                        board: Some(encode(g)),
                        user_1: s.user_1,
                        user_2: s.user_2,
                        winner: has_win(g),
                        last_user_id: Some(user_id),
                        last_user_color: s.last_user_color,
                        ended: has_win(g),
                    },
                ),
            }
        },
    }
}

/// Applies a move to a session and returns the session after it. The
/// session handed in is left as it was.
pub fn user_move(state: &GameState, user_id: &str, col_num: usize, color: char) -> (res: Result<
    GameState,
    GameError,
>)
    ensures
        match res {
            Ok(next) => after_move(state@, user_id@, col_num as int, color) == Ok::<
                GameStateView,
                GameError,
            >(next@),
            Err(e) => after_move(state@, user_id@, col_num as int, color) == Err::<
                GameStateView,
                GameError,
            >(e),
        },
{
    let board_str = match &state.board {
        Some(s) => s,
        None => {
            return Err(GameError::MalformedBoard);
        },
    };
    let board = match str_to_arr(board_str.as_str()) {
        Ok(board) => board,
        Err(e) => {
            return Err(e);
        },
    };
    let new_board = match do_move(col_num, board.as_slice(), color) {
        Ok(new_board) => new_board,
        Err(e) => {
            return Err(e);
        },
    };
    proof {
        lemma_move_changes_one_cell(cells(board@), col_num as int, color);
    }
    let board_arr = arr_to_str(new_board.as_slice());
    let is_winner = is_winner(new_board.as_slice());
    let game_over = is_winner;
    Ok(
        GameState {
            id: state.id.clone(),
            board: Some(board_arr),
            user_1: clone_text(&state.user_1),
            user_2: clone_text(&state.user_2),
            winner: is_winner,
            last_user_id: Some(user_id.to_owned()),
            last_user_color: clone_text(&state.last_user_color),
            ended: game_over,
        },
    )
}

/// A move never leaves a session won but not ended, or won without a last
/// mover; and the board that it writes has one character per cell.
pub proof fn lemma_move_keeps_session_consistent(
    s: GameStateView,
    user_id: Seq<char>,
    col_num: int,
    color: char,
)
    requires
        after_move(s, user_id, col_num, color) is Ok,
    ensures
        after_move(s, user_id, col_num, color)->Ok_0.is_consistent(),
        after_move(s, user_id, col_num, color)->Ok_0.board is Some,
        after_move(s, user_id, col_num, color)->Ok_0.board->Some_0.len() == ROWS * COLUMNS,
{
    let text = s.board->Some_0;
    let g = decode(text, ROWS as nat, COLUMNS as nat);
    lemma_move_changes_one_cell(g, col_num, color);
    let after = apply_move(g, col_num, color)->Ok_0;
    lemma_decode_encode(after, ROWS as nat, COLUMNS as nat);
}

/// The session after the player `user_id` drops the pieces `colors`, one
/// after the other, into column `col_num`. The first move that fails ends
/// the sequence with its error.
pub open spec fn after_moves(
    s: GameStateView,
    user_id: Seq<char>,
    col_num: int,
    colors: Seq<char>,
) -> Result<GameStateView, GameError>
    decreases colors.len(),
{
    if colors.len() == 0 {
        Ok(s)
    } else {
        match after_moves(s, user_id, col_num, colors.drop_last()) {
            Ok(before) => after_move(before, user_id, col_num, colors.last()),
            Err(e) => Err(e),
        }
    }
}

/// Moves into one column of a session with an empty board stack up in that
/// column, as long as it has room; every other field of the session stays,
/// but for the last mover and the two flags.
proof fn lemma_moves_stack_up(
    s: GameStateView,
    user_id: Seq<char>,
    col_num: int,
    colors: Seq<char>,
)
    requires
        s.board == Some(encode(empty_grid(ROWS as nat, COLUMNS as nat))),
        1 <= col_num <= COLUMNS,
        0 < colors.len() <= ROWS,
        forall|i: int| 0 <= i < colors.len() ==> colors[i] != EMPTY,
    ensures
        after_moves(s, user_id, col_num, colors) is Ok,
        ({
            let after = after_moves(s, user_id, col_num, colors)->Ok_0;
            let g = stacked(empty_grid(ROWS as nat, COLUMNS as nat), col_num - 1, colors);
            &&& after.board == Some(encode(g))
            &&& after.last_user_id == Some(user_id)
            &&& after.winner == has_win(g)
            &&& after.ended == has_win(g)
        }),
    decreases colors.len(),
{
    let empty = empty_grid(ROWS as nat, COLUMNS as nat);
    let earlier = colors.drop_last();
    lemma_column_fills_bottom_up(empty, col_num, earlier);
    lemma_column_fills_bottom_up(empty, col_num, colors);
    let before = stacked(empty, col_num - 1, earlier);
    lemma_decode_encode(before, ROWS as nat, COLUMNS as nat);
    if earlier.len() > 0 {
        lemma_moves_stack_up(s, user_id, col_num, earlier);
    }
}

/// A player who drops `WINNING_RUN` pieces of one color into one column of
/// a session with an empty board, with no move of anybody else in between,
/// wins: the session is won and ended, and every player's turn state is
/// "game over" with that player as the winner.
pub proof fn lemma_five_drops_win(
    s: GameStateView,
    user_id: Seq<char>,
    col_num: int,
    color: char,
    my_id: Seq<char>,
)
    requires
        s.board == Some(encode(empty_grid(ROWS as nat, COLUMNS as nat))),
        1 <= col_num <= COLUMNS,
        color != EMPTY,
    ensures
        after_moves(s, user_id, col_num, Seq::new(WINNING_RUN as nat, |i: int| color)) is Ok,
        ({
            let after = after_moves(
                s,
                user_id,
                col_num,
                Seq::new(WINNING_RUN as nat, |i: int| color),
            )->Ok_0;
            &&& after.winner
            &&& after.ended
            &&& after.last_user_id == Some(user_id)
            &&& after.client_state(my_id) == ClientStateView::GameOver(user_id)
        }),
{
    let empty = empty_grid(ROWS as nat, COLUMNS as nat);
    let colors = Seq::new(WINNING_RUN as nat, |i: int| color);
    lemma_moves_stack_up(s, user_id, col_num, colors);
    let g = stacked(empty, col_num - 1, colors);
    lemma_stack_of_five_wins(g, col_num - 1, color);
}

/// The text of the board with no piece on it.
pub fn empty_board() -> (text: String)
    ensures
        text@ == encode(empty_grid(ROWS as nat, COLUMNS as nat)),
        text@.len() == ROWS * COLUMNS,
{
    let mut board: Vec<Vec<char>> = Vec::new();
    let mut y: usize = 0;
    while y < ROWS
        invariant
            y <= ROWS,
            board@.len() == y,
            forall|r: int| 0 <= r < y ==> (#[trigger] board@[r])@ == Seq::new(COLUMNS as nat, |c: int| EMPTY),
        decreases ROWS - y,
    {
        let mut row: Vec<char> = Vec::new();
        let mut x: usize = 0;
        while x < COLUMNS
            invariant
                x <= COLUMNS,
                row@ == Seq::new(x as nat, |c: int| EMPTY),
            decreases COLUMNS - x,
        {
            row.push(EMPTY);
            x += 1;
        }
        board.push(row);
        y += 1;
    }
    assert(cells(board@) =~= empty_grid(ROWS as nat, COLUMNS as nat));
    proof {
        lemma_decode_encode(empty_grid(ROWS as nat, COLUMNS as nat), ROWS as nat, COLUMNS as nat);
    }
    arr_to_str(board.as_slice())
}

/// The record of a session that `user` opens under the name `id`: an empty
/// board, and `user` as its first player.
pub fn new_session(id: String, user: String) -> (session: NewGameState)
    ensures
        session.id == id,
        session.user_1 == Some(user),
        text_of(session.board) == Some(encode(empty_grid(ROWS as nat, COLUMNS as nat))),
{
    NewGameState { id, board: Some(empty_board()), user_1: Some(user) }
}

} // verus!
