//! Sessions and players, as the collaborators store and send them.

use vstd::prelude::*;

verus! {

/// The text of an optional string.
pub open spec fn text_of(s: Option<String>) -> Option<Seq<char>> {
    match s {
        Some(t) => Some(t@),
        None => None,
    }
}

/// A copy of an optional string.
pub fn clone_text(s: &Option<String>) -> (copy: Option<String>)
    ensures
        text_of(copy) == text_of(*s),
{
    match s {
        Some(t) => Some(t.clone()),
        None => None,
    }
}

/// The snapshot of a session: the board and whose move came last.
#[derive(Debug, Clone, PartialEq, Eq)]
pub struct GameState {
    pub id: String,
    pub board: Option<String>,
    pub user_1: Option<String>,
    pub user_2: Option<String>,
    pub winner: bool,
    pub last_user_id: Option<String>,
    pub last_user_color: Option<String>,
    pub ended: bool,
}

/// What a session snapshot says.
pub struct GameStateView {
    pub id: Seq<char>,
    pub board: Option<Seq<char>>,
    pub user_1: Option<Seq<char>>,
    pub user_2: Option<Seq<char>>,
    pub winner: bool,
    pub last_user_id: Option<Seq<char>>,
    pub last_user_color: Option<Seq<char>>,
    pub ended: bool,
}

impl View for GameState {
    type V = GameStateView;

    open spec fn view(&self) -> GameStateView {
        GameStateView {
            id: self.id@,
            board: text_of(self.board),
            user_1: text_of(self.user_1),
            user_2: text_of(self.user_2),
            winner: self.winner,
            last_user_id: text_of(self.last_user_id),
            last_user_color: text_of(self.last_user_color),
            ended: self.ended,
        }
    }
}

impl GameStateView {
    /// A won session has ended, and somebody made its last move.
    pub open spec fn is_consistent(self) -> bool {
        &&& self.winner ==> self.ended
        &&& self.winner ==> self.last_user_id is Some
    }
}

impl GameState {
    /// A copy of the snapshot.
    pub fn copy(&self) -> (out: GameState)
        ensures
            out@ == self@,
    {
        GameState {
            id: self.id.clone(),
            board: clone_text(&self.board),
            user_1: clone_text(&self.user_1),
            user_2: clone_text(&self.user_2),
            winner: self.winner,
            last_user_id: clone_text(&self.last_user_id),
            last_user_color: clone_text(&self.last_user_color),
            ended: self.ended,
        }
    }
}

/// A registered player.
#[derive(Debug, Clone, Default, PartialEq, Eq)]
pub struct User {
    pub id: String,
    pub user_name: String,
    pub user_color: String,
}

/// What a player record says.
pub struct UserView {
    pub id: Seq<char>,
    pub user_name: Seq<char>,
    pub user_color: Seq<char>,
}

impl View for User {
    type V = UserView;

    open spec fn view(&self) -> UserView {
        UserView { id: self.id@, user_name: self.user_name@, user_color: self.user_color@ }
    }
}

/// The piece that a color stands for: its first character, if it has one.
pub open spec fn first_char(user_color: Seq<char>) -> Option<char> {
    if user_color.len() > 0 {
        Some(user_color[0])
    } else {
        None
    }
}

/// The piece that a player of this color drops.
pub fn piece_of(user_color: &str) -> (piece: Option<char>)
    ensures
        piece == first_char(user_color@),
{
    let mut chars = user_color.chars();
    let first = chars.next();
    proof {
        broadcast use vstd::string::group_string_axioms;

    }
    first
}

impl User {
    /// The piece that the player drops.
    pub fn piece(&self) -> (piece: Option<char>)
        ensures
            piece == first_char(self.user_color@),
    {
        piece_of(self.user_color.as_str())
    }
}

/// A session as it is first stored: an empty board and the player who opened
/// it.
#[derive(Debug, Clone, PartialEq, Eq)]
pub struct NewGameState {
    pub id: String,
    pub board: Option<String>,
    pub user_1: Option<String>,
}

/// What a new session record says.
pub struct NewGameStateView {
    pub id: Seq<char>,
    pub board: Option<Seq<char>>,
    pub user_1: Option<Seq<char>>,
}

impl View for NewGameState {
    type V = NewGameStateView;

    open spec fn view(&self) -> NewGameStateView {
        NewGameStateView { id: self.id@, board: text_of(self.board), user_1: text_of(self.user_1) }
    }
}

/// Whose turn it is, as one player sees it.
#[derive(Debug, Clone, PartialEq, Eq)]
pub enum ClientState {
    WaitingForThisUserTurn,
    WaitingForOtherUserTurn,
    GameOver(String),
}

/// What a turn state says.
pub enum ClientStateView {
    WaitingForThisUserTurn,
    WaitingForOtherUserTurn,
    GameOver(Seq<char>),
}

impl View for ClientState {
    type V = ClientStateView;

    open spec fn view(&self) -> ClientStateView {
        match self {
            ClientState::WaitingForThisUserTurn => ClientStateView::WaitingForThisUserTurn,
            ClientState::WaitingForOtherUserTurn => ClientStateView::WaitingForOtherUserTurn,
            ClientState::GameOver(winner) => ClientStateView::GameOver(winner@),
        }
    }
}

} // verus!
