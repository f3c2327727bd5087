//! The registration page: a player registers, then joins the session that
//! waits for a second player, or opens a new one. The page calls nothing
//! itself; each step says what to ask of the collaborator next.

use vstd::prelude::*;
use vstd::string::StringExecFns;
use crate::models::{text_of, User, UserView};
use crate::error::RestError;

verus! {

/// What the collaborator answers when no session waits for a second player.
pub open spec fn no_session_text() -> Seq<char> {
    "No existing session found"@
}

/// The state of the page.
#[derive(Debug, PartialEq, Eq)]
pub struct Register {
    /// The name typed so far.
    pub user_name: Option<String>,
    /// The color typed so far.
    pub user_color: Option<String>,
    /// The player, once registered.
    pub user: Option<User>,
}

/// What the state of the page says.
pub struct RegisterView {
    pub user_name: Option<Seq<char>>,
    pub user_color: Option<Seq<char>>,
    pub user: Option<UserView>,
}

/// What an optional player record says.
pub open spec fn user_of(u: Option<User>) -> Option<UserView> {
    match u {
        Some(user) => Some(user@),
        None => None,
    }
}

impl View for Register {
    type V = RegisterView;

    open spec fn view(&self) -> RegisterView {
        RegisterView {
            user_name: text_of(self.user_name),
            user_color: text_of(self.user_color),
            user: user_of(self.user),
        }
    }
}

/// What happened on the page.
#[derive(Debug, PartialEq, Eq)]
pub enum Msg {
    /// The player submitted the form.
    RegisterUser,
    /// The player typed into the name field.
    UpdateNameInputText(String),
    /// The player typed into the color field.
    UpdateColorInputText(String),
    /// The answer to the registration.
    RegisterUserResponse(Result<User, RestError>),
    /// The answer to the search for a waiting session.
    FindGameResponse(Result<String, RestError>),
    /// The answer to joining a session.
    JoinGameResponse(Result<String, RestError>),
    /// The answer to opening a session.
    NewGameResponse(Result<String, RestError>),
}

/// What an event on the page says.
pub enum MsgView {
    RegisterUser,
    UpdateNameInputText(Seq<char>),
    UpdateColorInputText(Seq<char>),
    RegisterUserResponse(Result<UserView, Seq<char>>),
    FindGameResponse(Result<Seq<char>, Seq<char>>),
    JoinGameResponse(Result<Seq<char>, Seq<char>>),
    NewGameResponse(Result<Seq<char>, Seq<char>>),
}

/// What the answer to a registration says.
pub open spec fn registered(r: Result<User, RestError>) -> Result<UserView, Seq<char>> {
    match r {
        Ok(user) => Ok(user@),
        Err(e) => Err(e@),
    }
}

/// What an answer that names a session says.
pub open spec fn answered(r: Result<String, RestError>) -> Result<Seq<char>, Seq<char>> {
    match r {
        Ok(text) => Ok(text@),
        Err(e) => Err(e@),
    }
}

impl View for Msg {
    type V = MsgView;

    open spec fn view(&self) -> MsgView {
        match self {
            Msg::RegisterUser => MsgView::RegisterUser,
            Msg::UpdateNameInputText(val) => MsgView::UpdateNameInputText(val@),
            Msg::UpdateColorInputText(val) => MsgView::UpdateColorInputText(val@),
            Msg::RegisterUserResponse(r) => MsgView::RegisterUserResponse(registered(*r)),
            Msg::FindGameResponse(r) => MsgView::FindGameResponse(answered(*r)),
            Msg::JoinGameResponse(r) => MsgView::JoinGameResponse(answered(*r)),
            Msg::NewGameResponse(r) => MsgView::NewGameResponse(answered(*r)),
        }
    }
}

/// What the page asks of its caller.
#[derive(Debug, PartialEq, Eq)]
pub enum RegisterAction {
    /// Register a player of this name and color.
    RegisterUser { user_name: String, user_color: String },
    /// Keep the player record for the pages that follow.
    StoreUserInfo(User),
    /// Look for a session that waits for a second player.
    FindGame,
    /// Open a new session.
    NewGame,
    /// Join the session of this name.
    JoinGame(String),
    /// Go to the game page.
    GotoGamePage,
    /// Show the message to the user.
    Alert(String),
}

/// What an action of the page says.
pub enum RegisterActionView {
    RegisterUser { user_name: Seq<char>, user_color: Seq<char> },
    StoreUserInfo(UserView),
    FindGame,
    NewGame,
    JoinGame(Seq<char>),
    GotoGamePage,
    Alert(Seq<char>),
}

impl View for RegisterAction {
    type V = RegisterActionView;

    open spec fn view(&self) -> RegisterActionView {
        match self {
            RegisterAction::RegisterUser { user_name, user_color } =>
                RegisterActionView::RegisterUser {
                    user_name: user_name@,
                    user_color: user_color@,
                },
            RegisterAction::StoreUserInfo(user) => RegisterActionView::StoreUserInfo(user@),
            RegisterAction::FindGame => RegisterActionView::FindGame,
            RegisterAction::NewGame => RegisterActionView::NewGame,
            RegisterAction::JoinGame(id) => RegisterActionView::JoinGame(id@),
            RegisterAction::GotoGamePage => RegisterActionView::GotoGamePage,
            RegisterAction::Alert(text) => RegisterActionView::Alert(text@),
        }
    }
}

/// What a list of actions of the page says.
pub open spec fn register_actions_view(actions: Seq<RegisterAction>) -> Seq<RegisterActionView> {
    Seq::new(actions.len(), |i: int| actions[i]@)
}

/// What a step of the page gives: the page after the event, whether it is to
/// be drawn again, and what to do.
pub struct RegisterStep {
    pub page: RegisterView,
    pub render: bool,
    pub actions: Seq<RegisterActionView>,
}

impl RegisterView {
    /// The form can be submitted: both fields hold something.
    pub open spec fn accepts(self, msg: MsgView) -> bool {
        msg is RegisterUser ==> self.user_name is Some && self.user_color is Some
    }

    /// One step of the page.
    ///
    /// - A submitted form asks for the registration.
    /// - A registered player is kept, and a waiting session is looked for.
    /// - A waiting session is joined; without one, or when the search
    ///   fails, a new session is opened.
    /// - A session joined or opened leads to the game page; a join that
    ///   fails opens a new session instead.
    /// - Every failure is shown to the user.
    pub open spec fn step(self, msg: MsgView) -> RegisterStep {
        match msg {
            MsgView::RegisterUser => RegisterStep {
                page: self,
                render: true,
                actions: seq![
                    RegisterActionView::RegisterUser {
                        user_name: self.user_name.unwrap(),
                        user_color: self.user_color.unwrap(),
                    },
                ],
            },
            MsgView::UpdateNameInputText(val) => RegisterStep {
                page: RegisterView {
                    user_name: Some(val),
                    user_color: self.user_color,
                    user: self.user,
                },
                render: true,
                actions: Seq::empty(),
            },
            MsgView::UpdateColorInputText(val) => RegisterStep {
                page: RegisterView {
                    user_name: self.user_name,
                    user_color: Some(val),
                    user: self.user,
                },
                render: true,
                actions: Seq::empty(),
            },
            MsgView::RegisterUserResponse(Ok(user)) => RegisterStep {
                page: RegisterView {
                    user_name: self.user_name,
                    user_color: self.user_color,
                    user: Some(user),
                },
                render: true,
                actions: seq![
                    RegisterActionView::StoreUserInfo(user),
                    RegisterActionView::FindGame,
                ],
            },
            MsgView::RegisterUserResponse(Err(e)) => RegisterStep {
                page: self,
                render: true,
                actions: seq![RegisterActionView::Alert(e)],
            },
            MsgView::FindGameResponse(Ok(game_session_id)) => RegisterStep {
                page: self,
                render: true,
                actions: if game_session_id == no_session_text() {
                    seq![RegisterActionView::NewGame]
                } else {
                    seq![RegisterActionView::JoinGame(game_session_id)]
                },
            },
            MsgView::FindGameResponse(Err(e)) => RegisterStep {
                page: self,
                render: true,
                actions: seq![RegisterActionView::Alert(e), RegisterActionView::NewGame],
            },
            MsgView::JoinGameResponse(Ok(_)) => RegisterStep {
                page: self,
                render: false,
                actions: seq![RegisterActionView::GotoGamePage],
            },
            MsgView::JoinGameResponse(Err(e)) => RegisterStep {
                page: self,
                render: true,
                actions: seq![RegisterActionView::Alert(e), RegisterActionView::NewGame],
            },
            MsgView::NewGameResponse(Ok(_)) => RegisterStep {
                page: self,
                render: false,
                actions: seq![RegisterActionView::GotoGamePage],
            },
            MsgView::NewGameResponse(Err(e)) => RegisterStep {
                page: self,
                render: true,
                actions: seq![RegisterActionView::Alert(e)],
            },
        }
    }
}

/// A copy of a player record.
fn copy_user(user: &User) -> (out: User)
    ensures
        out@ == user@,
{
    User {
        id: user.id.clone(),
        user_name: user.user_name.clone(),
        user_color: user.user_color.clone(),
    }
}

impl Register {
    /// The page as it opens: nothing typed, nobody registered.
    pub fn create() -> (page: Register)
        ensures
            page@ == (RegisterView { user_name: None, user_color: None, user: None }),
    {
        Register { user_name: None, user_color: None, user: None }
    }

    /// Whether the event can be taken.
    pub fn accepts(&self, msg: &Msg) -> (accepted: bool)
        ensures
            accepted == self@.accepts(msg@),
    {
        match msg {
            Msg::RegisterUser => self.user_name.is_some() && self.user_color.is_some(),
            _ => true,
        }
    }

    /// Takes an event, and says whether the page is to be drawn again and
    /// what to do. The actions are to be carried out in the order given.
    pub fn update(&mut self, msg: Msg) -> (res: (bool, Vec<RegisterAction>))
        requires
            old(self)@.accepts(msg@),
        ensures
            (RegisterStep {
                page: final(self)@,
                render: res.0,
                actions: register_actions_view(res.1@),
            }) == old(self)@.step(msg@),
    {
        let ghost step = old(self)@.step(msg@);
        let mut actions: Vec<RegisterAction> = Vec::new();
        let mut render = true;
        match msg {
            Msg::RegisterUser => {
                match (&self.user_name, &self.user_color) {
                    (Some(user_name), Some(user_color)) => {
                        actions.push(
                            RegisterAction::RegisterUser {
                                user_name: user_name.clone(),
                                user_color: user_color.clone(),
                            },
                        );
                    },
                    _ => {},
                }
            },
            Msg::UpdateNameInputText(val) => {
                self.user_name = Some(val);
            },
            Msg::UpdateColorInputText(val) => {
                self.user_color = Some(val);
            },
            Msg::RegisterUserResponse(fetched_response) => match fetched_response {
                Ok(result) => {
                    actions.push(RegisterAction::StoreUserInfo(copy_user(&result)));
                    actions.push(RegisterAction::FindGame);
                    self.user = Some(result);
                },
                Err(err) => {
                    actions.push(RegisterAction::Alert(err.err));
                },
            },
            Msg::FindGameResponse(fetched_response) => match fetched_response {
                Ok(game_session_id) => {
                    let none = String::from_str("No existing session found");
                    if game_session_id == none {
                        actions.push(RegisterAction::NewGame);
                    } else {
                        actions.push(RegisterAction::JoinGame(game_session_id));
                    }
                },
                Err(err) => {
                    actions.push(RegisterAction::Alert(err.err));
                    actions.push(RegisterAction::NewGame);
                },
            },
            Msg::JoinGameResponse(fetched_response) => match fetched_response {
                Ok(_result) => {
                    actions.push(RegisterAction::GotoGamePage);
                    render = false;
                },
                Err(err) => {
                    actions.push(RegisterAction::Alert(err.err));
                    actions.push(RegisterAction::NewGame);
                },
            },
            Msg::NewGameResponse(fetched_response) => match fetched_response {
                Ok(_game_session_id) => {
                    actions.push(RegisterAction::GotoGamePage);
                    render = false;
                },
                Err(err) => {
                    actions.push(RegisterAction::Alert(err.err));
                },
            },
        }
        assert(register_actions_view(actions@) =~= step.actions);
        (render, actions)
    }
}

} // verus!
