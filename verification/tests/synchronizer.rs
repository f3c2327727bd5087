use connect5::models::{ClientState, GameState, User};
use connect5::error::{RestError, ServerError};
use connect5::synchronizer::{
    protocol_column, ClientRequest, GameWorker, Msg, ServerResponse, WorkerAction,
    UPDATE_PERIOD_SECS,
};

fn snapshot(winner: bool, last_user_id: Option<&str>) -> GameState {
    GameState {
        id: "session-1".to_string(),
        board: Some("-".repeat(54)),
        user_1: Some("me".to_string()),
        user_2: Some("you".to_string()),
        winner,
        last_user_id: last_user_id.map(|id| id.to_string()),
        last_user_color: None,
        ended: winner,
    }
}

fn me() -> User {
    User {
        id: "me".to_string(),
        user_name: "test-user".to_string(),
        user_color: "X".to_string(),
    }
}

fn worker_of_me() -> GameWorker<u32> {
    let mut worker = GameWorker::create();
    worker.set_user_id(Some(me()));
    worker
}

#[test]
fn the_update_period_is_three_seconds() {
    assert_eq!(UPDATE_PERIOD_SECS, 3);
}

#[test]
fn a_new_worker_knows_nobody() {
    let worker: GameWorker<u32> = GameWorker::create();
    assert_eq!(worker.this_user_id, None);
    assert_eq!(worker.input_handler, None);
    assert_eq!(worker.client_state, ClientState::WaitingForThisUserTurn);
}

#[test]
fn starting_restores_the_player() {
    let mut worker: GameWorker<u32> = GameWorker::create();
    let actions = worker.update(Msg::InitializeWorker);
    assert_eq!(actions, vec![WorkerAction::RestoreUser]);
    assert_eq!(worker, GameWorker::create());
}

#[test]
fn the_stored_player_becomes_the_workers_player() {
    let mut worker: GameWorker<u32> = GameWorker::create();
    worker.set_user_id(Some(me()));
    assert_eq!(worker.this_user_id, Some("me".to_string()));
    worker.set_user_id(None);
    assert_eq!(worker.this_user_id, Some("me".to_string()));
}

#[test]
fn without_a_stored_player_the_worker_has_none() {
    let mut worker: GameWorker<u32> = GameWorker::create();
    worker.set_user_id(None);
    assert_eq!(worker.this_user_id, None);
}

#[test]
fn the_period_fetches_nothing_before_a_request() {
    let mut worker = worker_of_me();
    assert_eq!(worker.update(Msg::Updating), vec![]);
}

#[test]
fn the_period_fetches_for_the_last_requester() {
    let mut worker = worker_of_me();
    let _ = worker.handle_input(ClientRequest::InitializeBoard, 7);
    assert_eq!(
        worker.update(Msg::Updating),
        vec![WorkerAction::FetchGameState(7)]
    );
    let _ = worker.handle_input(ClientRequest::MakeMoveRequest(2), 8);
    assert_eq!(
        worker.update(Msg::Updating),
        vec![WorkerAction::FetchGameState(8)]
    );
}

#[test]
fn a_request_to_initialize_fetches_the_snapshot() {
    let mut worker = worker_of_me();
    assert_eq!(
        worker.handle_input(ClientRequest::InitializeBoard, 4),
        WorkerAction::FetchGameState(4)
    );
    assert_eq!(worker.input_handler, Some(4));
}

#[test]
fn a_request_to_move_submits_the_move() {
    let mut worker = worker_of_me();
    assert_eq!(
        worker.handle_input(ClientRequest::MakeMoveRequest(5), 4),
        WorkerAction::SubmitMove(4, 5)
    );
    assert_eq!(worker.input_handler, Some(4));
    assert_eq!(worker.client_state, ClientState::WaitingForThisUserTurn);
}

#[test]
fn a_successful_move_is_answered_to_its_requester() {
    let mut worker = worker_of_me();
    let actions = worker.update(Msg::MakeMoveResponse(3, Ok(snapshot(false, Some("me")))));
    assert_eq!(
        actions,
        vec![WorkerAction::Respond(
            3,
            ServerResponse::MakeMoveResponse(Ok(snapshot(false, Some("me"))))
        )]
    );
    assert_eq!(worker.client_state, ClientState::WaitingForOtherUserTurn);
}

#[test]
fn a_winning_move_ends_the_game() {
    let mut worker = worker_of_me();
    let actions = worker.update(Msg::MakeMoveResponse(3, Ok(snapshot(true, Some("me")))));
    assert_eq!(
        actions,
        vec![
            WorkerAction::Respond(3, ServerResponse::GameOver("me".to_string())),
            WorkerAction::Respond(
                3,
                ServerResponse::MakeMoveResponse(Ok(snapshot(true, Some("me"))))
            ),
        ]
    );
    assert_eq!(worker.client_state, ClientState::GameOver("me".to_string()));
}

#[test]
fn a_failed_move_is_reported_and_changes_nothing() {
    let mut worker = worker_of_me();
    let before = worker_of_me();
    let actions = worker.update(Msg::MakeMoveResponse(
        3,
        Err(RestError {
            err: "This column is full. Please, try another move".to_string(),
        }),
    ));
    assert_eq!(
        actions,
        vec![WorkerAction::Respond(
            3,
            ServerResponse::MakeMoveResponse(Err(ServerError {
                err: "This column is full. Please, try another move".to_string(),
            }))
        )]
    );
    assert_eq!(worker, before);
}

#[test]
fn a_fresh_snapshot_is_answered_to_its_requester() {
    let mut worker = worker_of_me();
    let actions = worker.update(Msg::GetGameStateResponse(6, Ok(snapshot(false, Some("you")))));
    assert_eq!(
        actions,
        vec![WorkerAction::Respond(
            6,
            ServerResponse::GetGameStateResponse(Ok(snapshot(false, Some("you"))))
        )]
    );
    assert_eq!(worker.client_state, ClientState::WaitingForThisUserTurn);
}

#[test]
fn a_snapshot_of_a_won_session_ends_the_game() {
    let mut worker = worker_of_me();
    let actions = worker.update(Msg::GetGameStateResponse(6, Ok(snapshot(true, Some("you")))));
    assert_eq!(
        actions,
        vec![
            WorkerAction::Respond(6, ServerResponse::GameOver("you".to_string())),
            WorkerAction::Respond(
                6,
                ServerResponse::GetGameStateResponse(Ok(snapshot(true, Some("you"))))
            ),
        ]
    );
    assert_eq!(worker.client_state, ClientState::GameOver("you".to_string()));
}

#[test]
fn a_failed_fetch_is_shown_and_changes_nothing() {
    let mut worker = worker_of_me();
    let _ = worker.update(Msg::GetGameStateResponse(6, Ok(snapshot(false, Some("me")))));
    let actions = worker.update(Msg::GetGameStateResponse(
        6,
        Err(RestError {
            err: "connection refused".to_string(),
        }),
    ));
    assert_eq!(
        actions,
        vec![WorkerAction::Alert("connection refused".to_string())]
    );
    assert_eq!(worker.client_state, ClientState::WaitingForOtherUserTurn);
}

#[test]
fn the_state_follows_the_latest_snapshot_only() {
    let mut worker = worker_of_me();
    let _ = worker.update(Msg::GetGameStateResponse(1, Ok(snapshot(false, Some("me")))));
    assert_eq!(worker.client_state, ClientState::WaitingForOtherUserTurn);
    let _ = worker.update(Msg::GetGameStateResponse(1, Ok(snapshot(false, Some("you")))));
    assert_eq!(worker.client_state, ClientState::WaitingForThisUserTurn);
    let _ = worker.update(Msg::GetGameStateResponse(1, Ok(snapshot(true, Some("you")))));
    assert_eq!(worker.client_state, ClientState::GameOver("you".to_string()));
    let _ = worker.update(Msg::GetGameStateResponse(1, Ok(snapshot(false, None))));
    assert_eq!(worker.client_state, ClientState::WaitingForThisUserTurn);
}

#[test]
fn the_same_snapshot_twice_gives_the_same_state_and_answers() {
    let mut worker = worker_of_me();
    let first = worker.update(Msg::GetGameStateResponse(1, Ok(snapshot(false, Some("me")))));
    let after_first = worker.client_state.clone();
    let second = worker.update(Msg::GetGameStateResponse(1, Ok(snapshot(false, Some("me")))));
    assert_eq!(first, second);
    assert_eq!(worker.client_state, after_first);
}

#[test]
fn before_the_first_move_the_turn_is_this_players() {
    let mut worker = worker_of_me();
    let _ = worker.update(Msg::GetGameStateResponse(1, Ok(snapshot(false, None))));
    assert_eq!(worker.client_state, ClientState::WaitingForThisUserTurn);
}

#[test]
fn a_worker_without_a_player_takes_no_move_for_its_own() {
    let mut worker: GameWorker<u32> = GameWorker::create();
    let _ = worker.update(Msg::GetGameStateResponse(1, Ok(snapshot(false, Some("me")))));
    assert_eq!(worker.client_state, ClientState::WaitingForThisUserTurn);
    let _ = worker.update(Msg::GetGameStateResponse(1, Ok(snapshot(false, None))));
    assert_eq!(worker.client_state, ClientState::WaitingForThisUserTurn);
    let _ = worker.update(Msg::GetGameStateResponse(1, Ok(snapshot(true, Some("you")))));
    assert_eq!(worker.client_state, ClientState::GameOver("you".to_string()));
}

#[test]
fn an_event_with_a_won_snapshot_must_name_the_winner() {
    let good: Msg<u32> = Msg::GetGameStateResponse(1, Ok(snapshot(true, Some("me"))));
    assert!(good.names_the_winner());
    let bad: Msg<u32> = Msg::GetGameStateResponse(1, Ok(snapshot(true, None)));
    assert!(!bad.names_the_winner());
    let bad_move: Msg<u32> = Msg::MakeMoveResponse(1, Ok(snapshot(true, None)));
    assert!(!bad_move.names_the_winner());
    let open: Msg<u32> = Msg::MakeMoveResponse(1, Ok(snapshot(false, None)));
    assert!(open.names_the_winner());
    let failed: Msg<u32> = Msg::MakeMoveResponse(
        1,
        Err(RestError {
            err: "no".to_string(),
        }),
    );
    assert!(failed.names_the_winner());
    assert!(Msg::<u32>::Updating.names_the_winner());
    assert!(Msg::<u32>::InitializeWorker.names_the_winner());
    assert!(ServerResponse::GameOver("me".to_string()).names_the_winner());
    assert!(!ServerResponse::MakeMoveResponse(Ok(snapshot(true, None))).names_the_winner());
}

#[test]
fn a_worker_let_go_fetches_nothing() {
    let mut worker = worker_of_me();
    let _ = worker.handle_input(ClientRequest::InitializeBoard, 7);
    worker.destroy();
    assert_eq!(worker.input_handler, None);
    assert_eq!(worker.this_user_id, Some("me".to_string()));
    assert_eq!(worker.update(Msg::Updating), vec![]);
    let _ = worker.handle_input(ClientRequest::InitializeBoard, 9);
    assert_eq!(
        worker.update(Msg::Updating),
        vec![WorkerAction::FetchGameState(9)]
    );
}

#[test]
fn the_server_counts_columns_from_one() {
    assert_eq!(protocol_column(0), 1);
    assert_eq!(protocol_column(8), 9);
    assert_eq!(protocol_column(u32::MAX), 4294967296);
}
