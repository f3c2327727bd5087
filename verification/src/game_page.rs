//! The game page: what a player's clicks and the worker's answers do to the
//! page, and what the page shows. The page draws nothing itself; each step
//! says what to send or to tell the user.

use vstd::prelude::*;
use vstd::string::StringExecFns;
use crate::grid::{COLUMNS, ROWS};
use crate::models::{ClientState, ClientStateView, GameState, GameStateView, User, UserView};
use crate::synchronizer::{ClientRequest, ServerResponse, ServerResponseView};
use crate::text::{decimal, to_decimal};
use crate::turn::turn_state;

verus! {

/// The state of the page.
#[derive(Debug, PartialEq, Eq)]
pub struct Game {
    /// The column that the player clicked, counted from 0.
    pub selected_column: Option<u32>,
    /// The column under the pointer, counted from 0.
    pub hover_column: Option<u32>,
    /// The latest snapshot, once one has come.
    pub game_state: Option<GameState>,
    /// Whose turn it is.
    pub client_state: ClientState,
    /// The player at this page.
    pub this_user: User,
}

/// What the state of the page says.
pub struct GameView {
    pub selected_column: Option<u32>,
    pub hover_column: Option<u32>,
    pub game_state: Option<GameStateView>,
    pub client_state: ClientStateView,
    pub this_user: UserView,
}

/// What an optional snapshot says.
pub open spec fn snapshot_of(s: Option<GameState>) -> Option<GameStateView> {
    match s {
        Some(game_state) => Some(game_state@),
        None => None,
    }
}

impl View for Game {
    type V = GameView;

    open spec fn view(&self) -> GameView {
        GameView {
            selected_column: self.selected_column,
            hover_column: self.hover_column,
            game_state: snapshot_of(self.game_state),
            client_state: self.client_state@,
            this_user: self.this_user@,
        }
    }
}

/// What happened on the page.
#[derive(Debug, PartialEq, Eq)]
pub enum Msg {
    /// The page was opened.
    Initialize,
    /// The player clicked a column.
    SelectColumn(u32),
    /// The pointer entered a column.
    MouseOver(u32),
    /// The pointer left a column.
    MouseOut(u32),
    /// The worker answered.
    DataReceived(ServerResponse),
    /// The player asked to move into the selected column.
    MakeMoveClick,
}

/// What an event on the page says.
pub enum MsgView {
    Initialize,
    SelectColumn(u32),
    MouseOver(u32),
    MouseOut(u32),
    DataReceived(ServerResponseView),
    MakeMoveClick,
}

impl View for Msg {
    type V = MsgView;

    open spec fn view(&self) -> MsgView {
        match self {
            Msg::Initialize => MsgView::Initialize,
            Msg::SelectColumn(column) => MsgView::SelectColumn(*column),
            Msg::MouseOver(column) => MsgView::MouseOver(*column),
            Msg::MouseOut(column) => MsgView::MouseOut(*column),
            Msg::DataReceived(data) => MsgView::DataReceived(data@),
            Msg::MakeMoveClick => MsgView::MakeMoveClick,
        }
    }
}

/// What the page asks of its caller.
#[derive(Debug, PartialEq, Eq)]
pub enum PageAction {
    /// Send the request to the worker.
    Send(ClientRequest),
    /// Show the message to the user.
    Alert(String),
}

/// What an action of the page says.
pub enum PageActionView {
    Send(ClientRequest),
    Alert(Seq<char>),
}

impl View for PageAction {
    type V = PageActionView;

    open spec fn view(&self) -> PageActionView {
        match self {
            PageAction::Send(request) => PageActionView::Send(*request),
            PageAction::Alert(text) => PageActionView::Alert(text@),
        }
    }
}

/// What a list of actions of the page says.
pub open spec fn page_actions_view(actions: Seq<PageAction>) -> Seq<PageActionView> {
    Seq::new(actions.len(), |i: int| actions[i]@)
}

/// What the player is told when asking to move out of turn.
pub open spec fn wait_text() -> Seq<char> {
    "Please, wait for the other user turn to finish!"@
}

/// What the player is told when asking to move after the game has ended.
pub open spec fn game_over_text(winner: Seq<char>) -> Seq<char> {
    "GameOver! User "@ + winner + " won."@
}

impl GameView {
    /// The page with the turn state recomputed from its snapshot.
    pub open spec fn with_client_state_updated(self) -> GameView {
        GameView {
            selected_column: self.selected_column,
            hover_column: self.hover_column,
            game_state: self.game_state,
            client_state: self.game_state.unwrap().client_state(self.this_user.id),
            this_user: self.this_user,
        }
    }

    /// The page after an answer of the worker, and what to tell the user. A
    /// snapshot replaces the one before it, and the turn state is recomputed
    /// from it alone; a failure is shown and changes nothing; the end of the
    /// game is taken as told.
    pub open spec fn received(self, data: ServerResponseView) -> (GameView, Seq<PageActionView>) {
        match data {
            ServerResponseView::DataFetched(_) => (self, Seq::empty()),
            ServerResponseView::MakeMoveResponse(Ok(game_state)) => (
                self.with_snapshot(game_state),
                Seq::empty(),
            ),
            ServerResponseView::MakeMoveResponse(Err(e)) => (self, seq![PageActionView::Alert(e)]),
            ServerResponseView::GetGameStateResponse(Ok(game_state)) => (
                self.with_snapshot(game_state),
                Seq::empty(),
            ),
            ServerResponseView::GetGameStateResponse(Err(e)) => (
                self,
                seq![PageActionView::Alert(e)],
            ),
            ServerResponseView::GameOver(winner) => (
                GameView {
                    selected_column: self.selected_column,
                    hover_column: self.hover_column,
                    game_state: self.game_state,
                    client_state: ClientStateView::GameOver(winner),
                    this_user: self.this_user,
                },
                Seq::empty(),
            ),
        }
    }

    /// The page with a fresh snapshot and the turn state that it gives.
    pub open spec fn with_snapshot(self, game_state: GameStateView) -> GameView {
        GameView {
            selected_column: self.selected_column,
            hover_column: self.hover_column,
            game_state: Some(game_state),
            client_state: game_state.client_state(self.this_user.id),
            this_user: self.this_user,
        }
    }

    /// The page after the player asked to move, and what to do: the move is
    /// sent only when it is the player's turn, and the selection is cleared
    /// in any case.
    pub open spec fn clicked(self) -> (GameView, Seq<PageActionView>) {
        (
            GameView {
                selected_column: None,
                hover_column: self.hover_column,
                game_state: self.game_state,
                client_state: self.client_state,
                this_user: self.this_user,
            },
            match self.client_state {
                ClientStateView::WaitingForThisUserTurn => seq![
                    PageActionView::Send(
                        ClientRequest::MakeMoveRequest(self.selected_column.unwrap()),
                    ),
                ],
                ClientStateView::WaitingForOtherUserTurn => seq![
                    PageActionView::Alert(wait_text()),
                ],
                ClientStateView::GameOver(winner) => seq![
                    PageActionView::Alert(game_over_text(winner)),
                ],
            },
        )
    }

    /// One step of the page: the page after the event, and what to do.
    pub open spec fn step(self, msg: MsgView) -> (GameView, Seq<PageActionView>) {
        match msg {
            MsgView::Initialize => (
                self,
                seq![PageActionView::Send(ClientRequest::InitializeBoard)],
            ),
            MsgView::SelectColumn(column) => (
                GameView {
                    selected_column: Some(column),
                    hover_column: self.hover_column,
                    game_state: self.game_state,
                    client_state: self.client_state,
                    this_user: self.this_user,
                },
                Seq::empty(),
            ),
            MsgView::MouseOver(column) => (
                GameView {
                    selected_column: self.selected_column,
                    hover_column: Some(column),
                    game_state: self.game_state,
                    client_state: self.client_state,
                    this_user: self.this_user,
                },
                Seq::empty(),
            ),
            MsgView::MouseOut(_) => (
                GameView {
                    selected_column: self.selected_column,
                    hover_column: None,
                    game_state: self.game_state,
                    client_state: self.client_state,
                    this_user: self.this_user,
                },
                Seq::empty(),
            ),
            MsgView::DataReceived(data) => self.received(data),
            MsgView::MakeMoveClick => self.clicked(),
        }
    }

    /// The event can be taken: a snapshot in it names the winner of a won
    /// session, and a move is asked for only with a column selected.
    pub open spec fn accepts(self, msg: MsgView) -> bool {
        match msg {
            MsgView::DataReceived(data) => data.names_the_winner(),
            MsgView::MakeMoveClick => self.client_state is WaitingForThisUserTurn
                ==> self.selected_column is Some,
            _ => true,
        }
    }

    /// The line that tells the player where the game stands.
    pub open spec fn status_text(self) -> Seq<char> {
        match self.client_state {
            ClientStateView::GameOver(winner) => "GameOver. User "@ + winner + " won,"@,
            _ => match self.game_state {
                Some(game_state) => match game_state.last_user_id {
                    Some(last_user_id) => if last_user_id == self.this_user.id {
                        "Other user turn"@
                    } else {
                        "Your turn"@
                    },
                    None => "Un-initialized"@,
                },
                None => "Un-initialized"@,
            },
        }
    }

    /// The text of the board that the page shows: that of the snapshot, and
    /// an empty board before the first snapshot.
    pub open spec fn shown_board(self) -> Seq<char> {
        match self.game_state {
            Some(game_state) => game_state.board.unwrap(),
            None => Seq::new((ROWS * COLUMNS) as nat, |i: int| '-'),
        }
    }

    /// The square in `row` and `column` can be drawn: a snapshot on the page
    /// has a board, and the square is on the board unless its column is
    /// marked.
    pub open spec fn shows_square(self, row: u32, column: u32) -> bool {
        &&& self.game_state is Some ==> self.game_state->Some_0.board is Some
        &&& self.selected_column != Some(column) && self.hover_column != Some(column) ==> row
            * COLUMNS + column < self.shown_board().len()
    }

    /// The style class of the square in `row` and `column`, both counted
    /// from 0: the selected column first, the column under the pointer
    /// second, and the piece on the square otherwise.
    pub open spec fn square_class(self, row: u32, column: u32) -> Seq<char> {
        if self.selected_column == Some(column) {
            "square_red"@
        } else if self.hover_column == Some(column) {
            "col_grey"@
        } else {
            let piece = self.shown_board()[row * COLUMNS + column];
            if piece == 'X' {
                "X"@
            } else if piece == 'O' {
                "O"@
            } else {
                "square_blue"@
            }
        }
    }
}

/// The number of the selected column as the player counts it, from 1, and
/// nothing without a selection.
pub open spec fn selected_column_text(colum: Option<u32>) -> Seq<char> {
    match colum {
        Some(x) => decimal((x + 1) as nat),
        None => Seq::empty(),
    }
}

/// Whether `text` has a character at index `idx`.
fn has_char_at(text: &str, idx: u64) -> (has: bool)
    ensures
        has == (idx < text@.len()),
{
    let mut i: u64 = 0;
    for ch in it: text.chars()
        invariant
            i == it.index(),
            i <= idx,
            it.seq() == text@,
    {
        if i == idx {
            return true;
        }
        i += 1;
    }
    false
}

/// The character of `text` at index `idx`.
fn char_at(text: &str, idx: u64) -> (c: char)
    requires
        idx < text@.len(),
    ensures
        c == text@[idx as int],
{
    let mut i: u64 = 0;
    for ch in it: text.chars()
        invariant
            i == it.index(),
            i <= idx,
            idx < text@.len(),
            it.seq() == text@,
    {
        if i == idx {
            return ch;
        }
        i += 1;
    }
    '-'
}

impl Game {
    /// The page as it opens for `this_user`: nothing selected, no snapshot
    /// yet, and the first turn taken for the player's own.
    pub fn create(this_user: User) -> (page: Game)
        ensures
            page@ == (GameView {
                selected_column: None,
                hover_column: None,
                game_state: None,
                client_state: ClientStateView::WaitingForThisUserTurn,
                this_user: this_user@,
            }),
    {
        Game {
            selected_column: None,
            hover_column: None,
            game_state: None,
            client_state: ClientState::WaitingForThisUserTurn,
            this_user,
        }
    }

    /// Recomputes the turn state from the snapshot that the page holds.
    pub fn update_client_state(&mut self)
        requires
            old(self)@.game_state is Some,
            old(self)@.game_state->Some_0.names_the_winner(),
        ensures
            final(self)@ == old(self)@.with_client_state_updated(),
    {
        let state = match &self.game_state {
            Some(game_state) => game_state.client_state(&self.this_user.id),
            None => ClientState::WaitingForThisUserTurn,
        };
        self.client_state = state;
    }

    /// Takes an answer of the worker.
    pub fn process_response_data(&mut self, data: ServerResponse) -> (actions: Vec<PageAction>)
        requires
            data@.names_the_winner(),
        ensures
            (final(self)@, page_actions_view(actions@)) == old(self)@.received(data@),
    {
        let mut actions: Vec<PageAction> = Vec::new();
        match data {
            ServerResponse::DataFetched(_event_data) => {},
            ServerResponse::MakeMoveResponse(event_data) => {
                match event_data {
                    Ok(game_state) => {
                        self.game_state = Some(game_state);
                        self.update_client_state();
                    },
                    Err(err) => {
                        actions.push(PageAction::Alert(err.err));
                    },
                }
            },
            ServerResponse::GetGameStateResponse(event_data) => {
                match event_data {
                    Ok(game_state) => {
                        self.game_state = Some(game_state);
                        self.update_client_state();
                    },
                    Err(err) => {
                        actions.push(PageAction::Alert(err.err));
                    },
                }
            },
            ServerResponse::GameOver(winner) => {
                self.client_state = ClientState::GameOver(winner);
            },
        }
        actions
    }

    /// Whether the event can be taken.
    pub fn accepts(&self, msg: &Msg) -> (accepted: bool)
        ensures
            accepted == self@.accepts(msg@),
    {
        match msg {
            Msg::DataReceived(data) => data.names_the_winner(),
            Msg::MakeMoveClick => match &self.client_state {
                ClientState::WaitingForThisUserTurn => self.selected_column.is_some(),
                _ => true,
            },
            _ => true,
        }
    }

    /// Takes an event and says what to do. The page is to be drawn again
    /// after every event.
    pub fn update(&mut self, msg: Msg) -> (actions: Vec<PageAction>)
        requires
            old(self)@.accepts(msg@),
        ensures
            (final(self)@, page_actions_view(actions@)) == old(self)@.step(msg@),
    {
        match msg {
            Msg::Initialize => {
                let mut actions: Vec<PageAction> = Vec::new();
                actions.push(PageAction::Send(ClientRequest::InitializeBoard));
                actions
            },
            Msg::SelectColumn(column) => {
                self.selected_column = Some(column);
                let actions: Vec<PageAction> = Vec::new();
                actions
            },
            Msg::MouseOver(column) => {
                self.hover_column = Some(column);
                let actions: Vec<PageAction> = Vec::new();
                actions
            },
            Msg::MouseOut(_column) => {
                self.hover_column = None;
                let actions: Vec<PageAction> = Vec::new();
                actions
            },
            Msg::DataReceived(data) => self.process_response_data(data),
            Msg::MakeMoveClick => {
                let mut actions: Vec<PageAction> = Vec::new();
                match &self.client_state {
                    ClientState::WaitingForThisUserTurn => {
                        match self.selected_column {
                            Some(column) => {
                                actions.push(
                                    PageAction::Send(ClientRequest::MakeMoveRequest(column)),
                                );
                            },
                            None => {},
                        }
                    },
                    ClientState::WaitingForOtherUserTurn => {
                        actions.push(
                            PageAction::Alert(
                                String::from_str("Please, wait for the other user turn to finish!"),
                            ),
                        );
                    },
                    ClientState::GameOver(winner) => {
                        let mut text = String::from_str("GameOver! User ");
                        text.append(winner.as_str());
                        text.append(" won.");
                        actions.push(PageAction::Alert(text));
                    },
                }
                self.selected_column = None;
                actions
            },
        }
    }

    /// The line that tells the player where the game stands.
    pub fn get_status_msg(&self) -> (text: String)
        ensures
            text@ == self@.status_text(),
    {
        if let ClientState::GameOver(winner) = &self.client_state {
            let mut text = String::from_str("GameOver. User ");
            text.append(winner.as_str());
            text.append(" won,");
            return text;
        }
        match &self.game_state {
            Some(game_state) => match &game_state.last_user_id {
                Some(last_user_id) => {
                    if *last_user_id == self.this_user.id {
                        String::from_str("Other user turn")
                    } else {
                        String::from_str("Your turn")
                    }
                },
                None => String::from_str("Un-initialized"),
            },
            None => String::from_str("Un-initialized"),
        }
    }

    /// Whether the square in `row` and `column` can be drawn.
    pub fn shows_square(&self, row: u32, column: u32) -> (shown: bool)
        ensures
            shown == self@.shows_square(row, column),
    {
        let marked = match self.selected_column {
            Some(x) => x == column,
            None => false,
        } || match self.hover_column {
            Some(x) => x == column,
            None => false,
        };
        let idx: u64 = row as u64 * COLUMNS as u64 + column as u64;
        match &self.game_state {
            Some(game_state) => match &game_state.board {
                Some(board) => marked || has_char_at(board.as_str(), idx),
                None => false,
            },
            None => marked || idx < (ROWS * COLUMNS) as u64,
        }
    }

    /// The style class of the square in `row` and `column`, both counted
    /// from 0.
    pub fn get_square_class(&self, row: u32, column: u32) -> (class: &'static str)
        requires
            self@.shows_square(row, column),
        ensures
            class@ == self@.square_class(row, column),
    {
        if let Some(x) = self.selected_column {
            if x == column {
                return "square_red";
            }
        }
        if let Some(x) = self.hover_column {
            if x == column {
                return "col_grey";
            }
        }
        let idx: u64 = row as u64 * COLUMNS as u64 + column as u64;
        let piece: char = match &self.game_state {
            Some(game_state) => match &game_state.board {
                Some(board) => char_at(board.as_str(), idx),
                None => '-',
            },
            None => '-',
        };
        if piece == 'X' {
            "X"
        } else if piece == 'O' {
            "O"
        } else {
            "square_blue"
        }
    }

    /// The number of the selected column as the player counts it, from 1,
    /// and nothing without a selection.
    pub fn print_selected_column(colum: Option<u32>) -> (text: String)
        ensures
            text@ == selected_column_text(colum),
    {
        match colum {
            Some(x) => to_decimal(x as u64 + 1),
            None => String::new(),
        }
    }
}

/// The turn state after a snapshot depends on the snapshot and on the
/// player, and on nothing that the page held before; and taking the same
/// snapshot once more changes nothing.
pub proof fn lemma_snapshot_decides_turn(a: GameView, b: GameView, game_state: GameStateView)
    requires
        a.this_user.id == b.this_user.id,
    ensures
        a.with_snapshot(game_state).client_state == b.with_snapshot(game_state).client_state,
        a.with_snapshot(game_state).client_state == turn_state(
            game_state.winner,
            game_state.last_user_id,
            a.this_user.id,
        ),
        a.with_snapshot(game_state).with_snapshot(game_state) == a.with_snapshot(game_state),
        a.with_snapshot(game_state).with_client_state_updated() == a.with_snapshot(game_state),
{
}

} // verus!
