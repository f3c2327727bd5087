use connect5::error::RestError;
use connect5::models::User;
use connect5::register::{Msg, Register, RegisterAction};

fn registered() -> User {
    User {
        id: "player-a".to_string(),
        user_name: "ann".to_string(),
        user_color: "X".to_string(),
    }
}

fn failure(text: &str) -> RestError {
    RestError {
        err: text.to_string(),
    }
}

#[test]
fn the_page_opens_empty() {
    let page = Register::create();
    assert_eq!(page.user_name, None);
    assert_eq!(page.user_color, None);
    assert_eq!(page.user, None);
}

#[test]
fn typing_fills_the_fields() {
    let mut page = Register::create();
    assert_eq!(
        page.update(Msg::UpdateNameInputText("ann".to_string())),
        (true, vec![])
    );
    assert_eq!(
        page.update(Msg::UpdateColorInputText("X".to_string())),
        (true, vec![])
    );
    assert_eq!(page.user_name, Some("ann".to_string()));
    assert_eq!(page.user_color, Some("X".to_string()));
    let _ = page.update(Msg::UpdateNameInputText("anna".to_string()));
    assert_eq!(page.user_name, Some("anna".to_string()));
    assert_eq!(page.user_color, Some("X".to_string()));
}

#[test]
fn submitting_asks_for_the_registration() {
    let mut page = Register::create();
    let _ = page.update(Msg::UpdateNameInputText("ann".to_string()));
    let _ = page.update(Msg::UpdateColorInputText("X".to_string()));
    assert_eq!(
        page.update(Msg::RegisterUser),
        (
            true,
            vec![RegisterAction::RegisterUser {
                user_name: "ann".to_string(),
                user_color: "X".to_string(),
            }]
        )
    );
    assert_eq!(page.user, None);
}

#[test]
fn a_registered_player_is_kept_and_a_session_is_looked_for() {
    let mut page = Register::create();
    assert_eq!(
        page.update(Msg::RegisterUserResponse(Ok(registered()))),
        (
            true,
            vec![
                RegisterAction::StoreUserInfo(registered()),
                RegisterAction::FindGame
            ]
        )
    );
    assert_eq!(page.user, Some(registered()));
}

#[test]
fn a_failed_registration_is_shown() {
    let mut page = Register::create();
    assert_eq!(
        page.update(Msg::RegisterUserResponse(Err(failure("no luck")))),
        (true, vec![RegisterAction::Alert("no luck".to_string())])
    );
    assert_eq!(page, Register::create());
}

#[test]
fn a_waiting_session_is_joined() {
    let mut page = Register::create();
    assert_eq!(
        page.update(Msg::FindGameResponse(Ok("session-1".to_string()))),
        (true, vec![RegisterAction::JoinGame("session-1".to_string())])
    );
}

#[test]
fn without_a_waiting_session_a_new_one_is_opened() {
    let mut page = Register::create();
    assert_eq!(
        page.update(Msg::FindGameResponse(Ok(
            "No existing session found".to_string()
        ))),
        (true, vec![RegisterAction::NewGame])
    );
}

#[test]
fn a_failed_search_opens_a_new_session() {
    let mut page = Register::create();
    assert_eq!(
        page.update(Msg::FindGameResponse(Err(failure("not reachable")))),
        (
            true,
            vec![
                RegisterAction::Alert("not reachable".to_string()),
                RegisterAction::NewGame
            ]
        )
    );
}

#[test]
fn a_joined_session_leads_to_the_game() {
    let mut page = Register::create();
    assert_eq!(
        page.update(Msg::JoinGameResponse(Ok("OK".to_string()))),
        (false, vec![RegisterAction::GotoGamePage])
    );
}

#[test]
fn a_failed_join_opens_a_new_session() {
    let mut page = Register::create();
    assert_eq!(
        page.update(Msg::JoinGameResponse(Err(failure("taken")))),
        (
            true,
            vec![
                RegisterAction::Alert("taken".to_string()),
                RegisterAction::NewGame
            ]
        )
    );
}

#[test]
fn a_new_session_leads_to_the_game() {
    let mut page = Register::create();
    assert_eq!(
        page.update(Msg::NewGameResponse(Ok("session-2".to_string()))),
        (false, vec![RegisterAction::GotoGamePage])
    );
}

#[test]
fn a_failed_opening_is_shown() {
    let mut page = Register::create();
    assert_eq!(
        page.update(Msg::NewGameResponse(Err(failure("no store")))),
        (true, vec![RegisterAction::Alert("no store".to_string())])
    );
}

#[test]
fn the_form_is_taken_only_when_filled() {
    let mut page = Register::create();
    assert!(!page.accepts(&Msg::RegisterUser));
    let _ = page.update(Msg::UpdateNameInputText("ann".to_string()));
    assert!(!page.accepts(&Msg::RegisterUser));
    let _ = page.update(Msg::UpdateColorInputText("X".to_string()));
    assert!(page.accepts(&Msg::RegisterUser));
    assert!(Register::create().accepts(&Msg::FindGameResponse(Ok("s".to_string()))));
}
