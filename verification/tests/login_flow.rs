use actix_session::SessionExt;
use photos::errors::PhotoError;
use photos::login::{Login, LoginAction, LoginEvent, LoginReply, LoginStage, Logout};

fn run(events: &[LoginEvent]) -> Vec<LoginAction> {
    let mut stage = LoginStage::Start;
    let mut actions = vec![];
    for e in events {
        let (s, a) = Login::next(stage, *e);
        stage = s;
        actions.push(a);
    }
    actions
}

#[test]
fn successful_login() {
    let acts = run(&[
        LoginEvent::Begin,
        LoginEvent::EmailLookedUp(Some(3)),
        LoginEvent::UserLookedUp(Some(9)),
        LoginEvent::PasswordChecked(true),
        LoginEvent::SessionStored,
    ]);
    assert_eq!(
        acts,
        vec![
            LoginAction::FindEmailId,
            LoginAction::FindUserByEmail(3),
            LoginAction::CheckPassword,
            LoginAction::StoreSession(9),
            LoginAction::Reply(LoginReply::LoggedIn(9)),
        ]
    );
}

#[test]
fn wrong_password_is_invalid_credentials() {
    let acts = run(&[
        LoginEvent::Begin,
        LoginEvent::EmailLookedUp(Some(3)),
        LoginEvent::UserLookedUp(Some(9)),
        LoginEvent::PasswordChecked(false),
        LoginEvent::SessionStored,
    ]);
    assert_eq!(acts[3], LoginAction::Reply(LoginReply::Failed(PhotoError::InvalidCredentials)));
    assert_eq!(acts[4], LoginAction::Wait);
}

#[test]
fn unknown_email_or_user_is_user_not_found() {
    let a = run(&[LoginEvent::Begin, LoginEvent::EmailLookedUp(None)]);
    assert_eq!(a[1], LoginAction::Reply(LoginReply::Failed(PhotoError::UserNotFound)));
    let b = run(&[LoginEvent::Begin, LoginEvent::EmailLookedUp(Some(1)), LoginEvent::UserLookedUp(None)]);
    assert_eq!(b[2], LoginAction::Reply(LoginReply::Failed(PhotoError::UserNotFound)));
}

#[test]
fn out_of_order_events_wait_and_failures_end() {
    let a = run(&[
        LoginEvent::PasswordChecked(true),
        LoginEvent::SessionStored,
        LoginEvent::Begin,
        LoginEvent::StoreFailed,
        LoginEvent::Begin,
    ]);
    assert_eq!(
        a,
        vec![
            LoginAction::Wait,
            LoginAction::Wait,
            LoginAction::FindEmailId,
            LoginAction::Reply(LoginReply::StoreFailed),
            LoginAction::Wait,
        ]
    );
}

#[test]
fn logout_message() {
    assert_eq!(
        Logout::logout_message(Some("42".to_string())),
        Some("User 42 logged out successfully".to_string())
    );
    assert_eq!(Logout::logout_message(None), None);
}

#[test]
fn logout_after_login_names_the_user_once() {
    let req = actix_web::test::TestRequest::default().to_http_request();
    let mut session = req.get_session();
    assert_eq!(Logout::logout(&mut session), None);
    Login::open_session(&mut session, 42);
    assert_eq!(session.get::<i32>("user_id").unwrap(), Some(42));
    assert_eq!(Logout::logout(&mut session), Some("User 42 logged out successfully".to_string()));
    assert_eq!(session.get::<i32>("user_id").unwrap(), None);
    assert_eq!(Logout::logout(&mut session), None);
    Login::open_session(&mut session, -7);
    assert_eq!(Logout::logout(&mut session), Some("User -7 logged out successfully".to_string()));
}

#[test]
fn purged_session_ignores_login() {
    let req = actix_web::test::TestRequest::default().to_http_request();
    let mut session = req.get_session();
    session.purge();
    Login::open_session(&mut session, 3);
    assert!(session.entries().is_empty());
    assert_eq!(Logout::logout(&mut session), None);
}

#[test]
fn test_login() {
    let actions = run(&[
        LoginEvent::Begin,
        LoginEvent::EmailLookedUp(Some(3)),
        LoginEvent::UserLookedUp(Some(9)),
        LoginEvent::PasswordChecked(true),
        LoginEvent::NoSession,
    ]);
    assert_eq!(actions[3], LoginAction::StoreSession(9));
    assert_eq!(actions[4], LoginAction::Reply(LoginReply::LoggedIn(9)));
}
