//! The synchronizer: the decisions of the background worker that keeps a
//! player's view of the session fresh. It fetches nothing itself. Each step
//! takes what happened and says what to do next; the caller fetches, waits
//! and delivers.

use vstd::prelude::*;
use crate::error::{RestError, ServerError};
use crate::models::{text_of, ClientState, ClientStateView, GameState, GameStateView, User};
use crate::turn::turn_state;

verus! {

/// Seconds between two fetches of the session snapshot.
pub const UPDATE_PERIOD_SECS: u64 = 3;

/// The number under which the server knows the column that the page counts
/// as `column`: the page counts columns from 0, the server from 1.
pub fn protocol_column(column: u32) -> (number: u64)
    ensures
        number == column + 1,
{
    column as u64 + 1
}

/// What a requester can ask of the worker.
#[derive(Debug, Clone, Copy, PartialEq, Eq)]
pub enum ClientRequest {
    /// Fetch the snapshot now.
    InitializeBoard,
    /// Submit a move to the given column, counted from 0, then take the
    /// snapshot that comes back as the current one.
    MakeMoveRequest(u32),
}

/// What the worker answers.
#[derive(Debug, PartialEq, Eq)]
pub enum ServerResponse {
    DataFetched(String),
    MakeMoveResponse(Result<GameState, ServerError>),
    GetGameStateResponse(Result<GameState, ServerError>),
    GameOver(String),
}

/// What an answer of the worker says.
pub enum ServerResponseView {
    DataFetched(Seq<char>),
    MakeMoveResponse(Result<GameStateView, Seq<char>>),
    GetGameStateResponse(Result<GameStateView, Seq<char>>),
    GameOver(Seq<char>),
}

/// What a snapshot or failure handed to a requester says.
pub open spec fn reported(r: Result<GameState, ServerError>) -> Result<GameStateView, Seq<char>> {
    match r {
        Ok(game_state) => Ok(game_state@),
        Err(e) => Err(e@),
    }
}

/// What a snapshot or failure handed to the worker says.
pub open spec fn fetched(r: Result<GameState, RestError>) -> Result<GameStateView, Seq<char>> {
    match r {
        Ok(game_state) => Ok(game_state@),
        Err(e) => Err(e@),
    }
}

impl View for ServerResponse {
    type V = ServerResponseView;

    open spec fn view(&self) -> ServerResponseView {
        match self {
            ServerResponse::DataFetched(data) => ServerResponseView::DataFetched(data@),
            ServerResponse::MakeMoveResponse(r) => ServerResponseView::MakeMoveResponse(
                reported(*r),
            ),
            ServerResponse::GetGameStateResponse(r) => ServerResponseView::GetGameStateResponse(
                reported(*r),
            ),
            ServerResponse::GameOver(winner) => ServerResponseView::GameOver(winner@),
        }
    }
}

/// What happened: the events that the worker decides on. `H` identifies a
/// requester and is opaque to the worker.
#[derive(Debug, PartialEq, Eq)]
pub enum Msg<H> {
    /// The worker was started.
    InitializeWorker,
    /// The update period has passed.
    Updating,
    /// The answer to a move that the requester had the worker submit.
    MakeMoveResponse(H, Result<GameState, RestError>),
    /// The answer to a fetch of the snapshot.
    GetGameStateResponse(H, Result<GameState, RestError>),
}

/// What an event says.
pub enum MsgView<H> {
    InitializeWorker,
    Updating,
    MakeMoveResponse(H, Result<GameStateView, Seq<char>>),
    GetGameStateResponse(H, Result<GameStateView, Seq<char>>),
}

impl<H> View for Msg<H> {
    type V = MsgView<H>;

    open spec fn view(&self) -> MsgView<H> {
        match self {
            Msg::InitializeWorker => MsgView::InitializeWorker,
            Msg::Updating => MsgView::Updating,
            Msg::MakeMoveResponse(who, r) => MsgView::MakeMoveResponse(*who, fetched(*r)),
            Msg::GetGameStateResponse(who, r) => MsgView::GetGameStateResponse(*who, fetched(*r)),
        }
    }
}

impl<H> MsgView<H> {
    /// A snapshot that the event carries names the last mover if the session
    /// is won.
    pub open spec fn names_the_winner(self) -> bool {
        match self {
            MsgView::MakeMoveResponse(_, Ok(game_state)) => game_state.names_the_winner(),
            MsgView::GetGameStateResponse(_, Ok(game_state)) => game_state.names_the_winner(),
            _ => true,
        }
    }
}

impl<H> Msg<H> {
    /// Whether a snapshot that the event carries names the last mover if the
    /// session is won. Only such an event can be handed to the worker.
    pub fn names_the_winner(&self) -> (named: bool)
        ensures
            named == self@.names_the_winner(),
    {
        match self {
            Msg::MakeMoveResponse(_, Ok(game_state)) => game_state.names_the_winner(),
            Msg::GetGameStateResponse(_, Ok(game_state)) => game_state.names_the_winner(),
            _ => true,
        }
    }
}

impl ServerResponseView {
    /// A snapshot that the response carries names the last mover if the
    /// session is won.
    pub open spec fn names_the_winner(self) -> bool {
        match self {
            ServerResponseView::MakeMoveResponse(Ok(game_state)) => game_state.names_the_winner(),
            ServerResponseView::GetGameStateResponse(Ok(game_state)) =>
                game_state.names_the_winner(),
            _ => true,
        }
    }
}

impl ServerResponse {
    /// Whether a snapshot that the response carries names the last mover if
    /// the session is won.
    pub fn names_the_winner(&self) -> (named: bool)
        ensures
            named == self@.names_the_winner(),
    {
        match self {
            ServerResponse::MakeMoveResponse(Ok(game_state)) => game_state.names_the_winner(),
            ServerResponse::GetGameStateResponse(Ok(game_state)) => game_state.names_the_winner(),
            _ => true,
        }
    }
}

/// What to do next: the work that the worker hands to its caller.
#[derive(Debug, PartialEq, Eq)]
pub enum WorkerAction<H> {
    /// Read the stored player record and hand it to `set_user_id`.
    RestoreUser,
    /// Fetch the snapshot, and deliver the answer as
    /// `Msg::GetGameStateResponse` for this requester.
    FetchGameState(H),
    /// Submit a move to the column, counted from 0, and deliver the answer
    /// as `Msg::MakeMoveResponse` for this requester.
    SubmitMove(H, u32),
    /// Send the response to this requester, and to nobody else.
    Respond(H, ServerResponse),
    /// Show the message to the user.
    Alert(String),
}

/// What an action says.
pub enum WorkerActionView<H> {
    RestoreUser,
    FetchGameState(H),
    SubmitMove(H, u32),
    Respond(H, ServerResponseView),
    Alert(Seq<char>),
}

impl<H> View for WorkerAction<H> {
    type V = WorkerActionView<H>;

    open spec fn view(&self) -> WorkerActionView<H> {
        match self {
            WorkerAction::RestoreUser => WorkerActionView::RestoreUser,
            WorkerAction::FetchGameState(who) => WorkerActionView::FetchGameState(*who),
            WorkerAction::SubmitMove(who, column) => WorkerActionView::SubmitMove(*who, *column),
            WorkerAction::Respond(who, response) => WorkerActionView::Respond(*who, response@),
            WorkerAction::Alert(text) => WorkerActionView::Alert(text@),
        }
    }
}

/// What a list of actions says.
pub open spec fn actions_view<H>(actions: Seq<WorkerAction<H>>) -> Seq<WorkerActionView<H>> {
    Seq::new(actions.len(), |i: int| actions[i]@)
}

/// The state of the worker.
#[derive(Debug, PartialEq, Eq)]
pub struct GameWorker<H> {
    /// The player on whose behalf the worker runs, once known.
    pub this_user_id: Option<String>,
    /// The requester that asked last; the periodic fetch answers to it.
    pub input_handler: Option<H>,
    /// The turn state that the latest snapshot gave.
    pub client_state: ClientState,
}

/// What the state of the worker says.
pub struct GameWorkerView<H> {
    pub this_user_id: Option<Seq<char>>,
    pub input_handler: Option<H>,
    pub client_state: ClientStateView,
}

impl<H> View for GameWorker<H> {
    type V = GameWorkerView<H>;

    open spec fn view(&self) -> GameWorkerView<H> {
        GameWorkerView {
            this_user_id: text_of(self.this_user_id),
            input_handler: self.input_handler,
            client_state: self.client_state@,
        }
    }
}

/// The turn state that a snapshot gives a worker. A worker that does not
/// know its player yet takes no move for its own.
pub open spec fn snapshot_state(
    game_state: GameStateView,
    this_user_id: Option<Seq<char>>,
) -> ClientStateView {
    match this_user_id {
        Some(my_id) => turn_state(game_state.winner, game_state.last_user_id, my_id),
        None => if game_state.winner {
            ClientStateView::GameOver(game_state.last_user_id.unwrap())
        } else {
            ClientStateView::WaitingForThisUserTurn
        },
    }
}

/// The responses that tell requester `who` of a fresh snapshot: the end of
/// the game first, if the game is over, then the snapshot itself.
pub open spec fn snapshot_responses<H>(
    who: H,
    state: ClientStateView,
    snapshot: ServerResponseView,
) -> Seq<WorkerActionView<H>> {
    match state {
        ClientStateView::GameOver(winner) => seq![
            WorkerActionView::Respond(who, ServerResponseView::GameOver(winner)),
            WorkerActionView::Respond(who, snapshot),
        ],
        _ => seq![WorkerActionView::Respond(who, snapshot)],
    }
}

/// One step of the worker: the state after the event, and what to do next.
///
/// - Started: restore the player.
/// - Period passed: fetch the snapshot for the requester that asked last,
///   if anybody has asked yet.
/// - A move or a fetch succeeded: the turn state is recomputed from the
///   snapshot alone, and the requester is told.
/// - A move failed: the requester is told, and nothing changes.
/// - A fetch failed: the user is told, and nothing changes. Nothing is
///   tried again; the next period brings the next fetch.
pub open spec fn worker_step<H>(w: GameWorkerView<H>, msg: MsgView<H>) -> (
    GameWorkerView<H>,
    Seq<WorkerActionView<H>>,
) {
    match msg {
        MsgView::InitializeWorker => (w, seq![WorkerActionView::RestoreUser]),
        MsgView::Updating => match w.input_handler {
            Some(who) => (w, seq![WorkerActionView::FetchGameState(who)]),
            None => (w, Seq::empty()),
        },
        MsgView::MakeMoveResponse(who, Ok(game_state)) => {
            let state = snapshot_state(game_state, w.this_user_id);
            (
                GameWorkerView {
                    this_user_id: w.this_user_id,
                    input_handler: w.input_handler,
                    client_state: state,
                },
                snapshot_responses(
                    who,
                    state,
                    ServerResponseView::MakeMoveResponse(Ok(game_state)),
                ),
            )
        },
        MsgView::MakeMoveResponse(who, Err(e)) => (
            w,
            seq![WorkerActionView::Respond(who, ServerResponseView::MakeMoveResponse(Err(e)))],
        ),
        MsgView::GetGameStateResponse(who, Ok(game_state)) => {
            let state = snapshot_state(game_state, w.this_user_id);
            (
                GameWorkerView {
                    this_user_id: w.this_user_id,
                    input_handler: w.input_handler,
                    client_state: state,
                },
                snapshot_responses(
                    who,
                    state,
                    ServerResponseView::GetGameStateResponse(Ok(game_state)),
                ),
            )
        },
        MsgView::GetGameStateResponse(who, Err(e)) => (w, seq![WorkerActionView::Alert(e)]),
    }
}

/// The turn state that a snapshot gives a worker with this player.
fn recompute(game_state: &GameState, this_user_id: &Option<String>) -> (state: ClientState)
    requires
        game_state@.names_the_winner(),
    ensures
        state@ == snapshot_state(game_state@, text_of(*this_user_id)),
{
    match this_user_id {
        Some(my_id) => game_state.client_state(my_id),
        None => match &game_state.last_user_id {
            Some(last_user_id) => if game_state.winner {
                ClientState::GameOver(last_user_id.clone())
            } else {
                ClientState::WaitingForThisUserTurn
            },
            None => ClientState::WaitingForThisUserTurn,
        },
    }
}

/// The actions that tell requester `who` of a fresh snapshot.
fn respond_with<H: Copy>(who: H, state: &ClientState, snapshot: ServerResponse) -> (actions: Vec<
    WorkerAction<H>,
>)
    ensures
        actions_view(actions@) == snapshot_responses(who, state@, snapshot@),
{
    let mut actions: Vec<WorkerAction<H>> = Vec::new();
    match state {
        ClientState::GameOver(winner) => {
            actions.push(WorkerAction::Respond(who, ServerResponse::GameOver(winner.clone())));
        },
        _ => {},
    }
    actions.push(WorkerAction::Respond(who, snapshot));
    actions
}

impl<H: Copy> GameWorker<H> {
    /// A worker that knows neither its player nor a requester, and takes the
    /// first turn for its own.
    pub fn create() -> (worker: Self)
        ensures
            worker@ == (GameWorkerView::<H> {
                this_user_id: None,
                input_handler: None,
                client_state: ClientStateView::WaitingForThisUserTurn,
            }),
    {
        GameWorker {
            this_user_id: None,
            input_handler: None,
            client_state: ClientState::WaitingForThisUserTurn,
        }
    }

    /// Takes the stored player record, if there is one, for the worker's
    /// player. Without a record the worker keeps what it had.
    pub fn set_user_id(&mut self, user_info: Option<User>)
        ensures
            final(self)@ == (GameWorkerView {
                this_user_id: match user_info {
                    Some(user) => Some(user.id@),
                    None => old(self)@.this_user_id,
                },
                input_handler: old(self)@.input_handler,
                client_state: old(self)@.client_state,
            }),
    {
        if let Some(user) = user_info {
            self.this_user_id = Some(user.id);
        }
    }

    /// Lets go of the requester when its page is gone: from now on the
    /// period fetches nothing, until somebody asks again.
    pub fn destroy(&mut self)
        ensures
            final(self)@ == (GameWorkerView::<H> {
                this_user_id: old(self)@.this_user_id,
                input_handler: None,
                client_state: old(self)@.client_state,
            }),
    {
        self.input_handler = None;
    }

    /// Takes a request of requester `who`, who from now on also gets the
    /// periodic snapshots, and says what to do for it.
    pub fn handle_input(&mut self, msg: ClientRequest, who: H) -> (action: WorkerAction<H>)
        ensures
            final(self)@ == (GameWorkerView {
                this_user_id: old(self)@.this_user_id,
                input_handler: Some(who),
                client_state: old(self)@.client_state,
            }),
            action@ == match msg {
                ClientRequest::InitializeBoard => WorkerActionView::FetchGameState(who),
                ClientRequest::MakeMoveRequest(column) => WorkerActionView::SubmitMove(
                    who,
                    column,
                ),
            },
    {
        self.input_handler = Some(who);
        match msg {
            ClientRequest::InitializeBoard => WorkerAction::FetchGameState(who),
            ClientRequest::MakeMoveRequest(column) => WorkerAction::SubmitMove(who, column),
        }
    }

    /// Takes an event and says what to do next. The actions are to be
    /// carried out in the order given.
    pub fn update(&mut self, msg: Msg<H>) -> (actions: Vec<WorkerAction<H>>)
        requires
            msg@.names_the_winner(),
        ensures
            (final(self)@, actions_view(actions@)) == worker_step(old(self)@, msg@),
    {
        match msg {
            Msg::InitializeWorker => {
                let mut actions: Vec<WorkerAction<H>> = Vec::new();
                actions.push(WorkerAction::RestoreUser);
                actions
            },
            Msg::Updating => {
                let mut actions: Vec<WorkerAction<H>> = Vec::new();
                if let Some(input_handler) = self.input_handler {
                    actions.push(WorkerAction::FetchGameState(input_handler));
                }
                actions
            },
            Msg::MakeMoveResponse(who, fetched_response) => {
                match fetched_response {
                    Ok(game_state) => {
                        self.client_state = recompute(&game_state, &self.this_user_id);
                        respond_with(
                            who,
                            &self.client_state,
                            ServerResponse::MakeMoveResponse(Ok(game_state)),
                        )
                    },
                    Err(err) => {
                        let mut actions: Vec<WorkerAction<H>> = Vec::new();
                        let response = ServerResponse::MakeMoveResponse(
                            Err(ServerError { err: err.err }),
                        );
                        actions.push(WorkerAction::Respond(who, response));
                        actions
                    },
                }
            },
            Msg::GetGameStateResponse(who, fetched_response) => {
                match fetched_response {
                    Ok(game_state) => {
                        self.client_state = recompute(&game_state, &self.this_user_id);
                        respond_with(
                            who,
                            &self.client_state,
                            ServerResponse::GetGameStateResponse(Ok(game_state)),
                        )
                    },
                    Err(err) => {
                        let mut actions: Vec<WorkerAction<H>> = Vec::new();
                        actions.push(WorkerAction::Alert(err.err));
                        actions
                    },
                }
            },
        }
    }
}

/// The turn state after a fresh snapshot depends on the snapshot and on the
/// worker's player, and on nothing that came before.
pub proof fn lemma_snapshot_decides_state<H>(
    a: GameWorkerView<H>,
    b: GameWorkerView<H>,
    who_a: H,
    who_b: H,
    game_state: GameStateView,
)
    requires
        a.this_user_id == b.this_user_id,
    ensures
        worker_step(a, MsgView::GetGameStateResponse(who_a, Ok(game_state))).0.client_state
            == worker_step(b, MsgView::GetGameStateResponse(who_b, Ok(game_state))).0.client_state,
        worker_step(a, MsgView::GetGameStateResponse(who_a, Ok(game_state))).0.client_state
            == worker_step(b, MsgView::MakeMoveResponse(who_b, Ok(game_state))).0.client_state,
        worker_step(a, MsgView::GetGameStateResponse(who_a, Ok(game_state))).0.client_state
            == snapshot_state(game_state, a.this_user_id),
{
}

/// Taking the same event twice leaves the worker where taking it once
/// does, and asks for the same actions again.
pub proof fn lemma_step_is_idempotent<H>(w: GameWorkerView<H>, msg: MsgView<H>)
    ensures
        worker_step(worker_step(w, msg).0, msg) == worker_step(w, msg),
{
}

/// The answer to a request goes to the requester that made it, and to
/// nobody else.
pub proof fn lemma_answers_go_to_the_requester<H>(
    w: GameWorkerView<H>,
    who: H,
    answer: Result<GameStateView, Seq<char>>,
    i: int,
)
    ensures
        ({
            let actions = worker_step(w, MsgView::MakeMoveResponse(who, answer)).1;
            0 <= i < actions.len() && actions[i] is Respond ==> actions[i]->Respond_0 == who
        }),
        ({
            let actions = worker_step(w, MsgView::GetGameStateResponse(who, answer)).1;
            0 <= i < actions.len() && actions[i] is Respond ==> actions[i]->Respond_0 == who
        }),
{
}

/// A failure changes nothing in the worker, is passed on word for word, and
/// is not tried again: a failed move is reported to its requester, a failed
/// fetch is shown to the user, and neither leads to a new call.
pub proof fn lemma_failures_are_surfaced<H>(w: GameWorkerView<H>, who: H, e: Seq<char>)
    ensures
        worker_step(w, MsgView::MakeMoveResponse(who, Err(e))) == (
            w,
            seq![WorkerActionView::Respond(who, ServerResponseView::MakeMoveResponse(Err(e)))],
        ),
        worker_step(w, MsgView::GetGameStateResponse(who, Err(e))) == (
            w,
            seq![WorkerActionView::<H>::Alert(e)],
        ),
{
}

/// Only a request and the passing of the period lead to a call of the
/// collaborator: no answer, good or bad, is followed by another call.
pub proof fn lemma_answers_start_no_call<H>(
    w: GameWorkerView<H>,
    who: H,
    answer: Result<GameStateView, Seq<char>>,
    i: int,
)
    ensures
        ({
            let actions = worker_step(w, MsgView::MakeMoveResponse(who, answer)).1;
            0 <= i < actions.len() ==> !(actions[i] is FetchGameState) && !(actions[i]
                is SubmitMove)
        }),
        ({
            let actions = worker_step(w, MsgView::GetGameStateResponse(who, answer)).1;
            0 <= i < actions.len() ==> !(actions[i] is FetchGameState) && !(actions[i]
                is SubmitMove)
        }),
{
}

/// A worker without a requester fetches nothing when the period passes.
pub proof fn lemma_no_requester_no_fetch<H>(w: GameWorkerView<H>)
    requires
        w.input_handler is None,
    ensures
        worker_step(w, MsgView::Updating) == (w, Seq::<WorkerActionView<H>>::empty()),
{
}

/// No event makes the worker forget its player or its requester.
pub proof fn lemma_step_keeps_identity<H>(w: GameWorkerView<H>, msg: MsgView<H>)
    ensures
        worker_step(w, msg).0.this_user_id == w.this_user_id,
        worker_step(w, msg).0.input_handler == w.input_handler,
{
}

} // verus!
