use filehost::accounts::{
    decide_login, decide_password_change, login_user, register_user, register_user_hashed,
    reset_user_token, start_login, start_password_change, start_registration,
    start_registration_keyed, start_token_reset, start_token_reset_keyed, update_user_password,
    ChangePhase, LoginPhase, RegisterPhase, Registration, ResetPhase, API_KEY_LENGTH,
};
use filehost::error::ErrorKind;
use filehost::model::{PasswordUpdate, User, UserLogin, UserLoginData, UserRegister};
use filehost::password::{hash_password, verify_password};
use filehost::protocol::{Action, Confirmation, Next, Reply, Response};

fn account(id: i64, admin: bool, hashed: &str) -> User {
    User {
        id,
        username: String::from("ann"),
        email: Some(String::from("ann@example.org")),
        is_admin: admin,
        api_key: Some(String::from("key")),
        last_update: 1,
        created_at: 1,
        hashed_password: String::from(hashed),
    }
}

fn registration(email: Option<&str>) -> UserRegister {
    UserRegister {
        username: String::from("ann"),
        password: String::from("s3cret"),
        email: email.map(String::from),
    }
}

fn checking() -> Registration {
    let (state, _) = start_registration_keyed(
        registration(Some("ann@example.org")),
        1700000000,
        String::from("K".repeat(30)),
    );
    state
}

#[test]
fn registration_begins_by_asking_whether_the_login_is_taken() {
    let (state, next) = start_registration_keyed(
        registration(Some("ann@example.org")),
        1700000000,
        String::from("K".repeat(30)),
    );
    assert_eq!(state.phase, RegisterPhase::CheckingTaken);
    assert_eq!(state.password, "s3cret");
    assert_eq!(
        state.account,
        User {
            id: 0,
            username: String::from("ann"),
            email: Some(String::from("ann@example.org")),
            is_admin: false,
            api_key: Some("K".repeat(30)),
            last_update: 1700000000,
            created_at: 1700000000,
            hashed_password: String::new(),
        }
    );
    assert_eq!(
        next,
        Next::Ask(Action::IsLoginTaken {
            username: String::from("ann"),
            email: Some(String::from("ann@example.org")),
        })
    );
}

#[test]
fn registration_without_email_carries_no_email() {
    let (state, next) = start_registration_keyed(registration(None), 5, String::from("k"));
    assert_eq!(state.account.email, None);
    assert_eq!(
        next,
        Next::Ask(Action::IsLoginTaken { username: String::from("ann"), email: None })
    );
}

#[test]
fn registration_draws_a_key_of_thirty_characters() {
    assert_eq!(API_KEY_LENGTH, 30);
    let (state, _) = start_registration(registration(None), 5);
    let key = state.account.api_key.expect("a key is drawn");
    assert_eq!(key.chars().count(), 30);
    assert!(key.chars().all(|c| c.is_ascii_alphanumeric()));
}

#[test]
fn registration_under_a_taken_login_is_rejected() {
    let (state, next) = register_user_hashed(checking(), Reply::Flag(true), None);
    assert_eq!(state.phase, RegisterPhase::Finished);
    assert_eq!(next, Next::Respond(Response::Rejected(ErrorKind::LoginTaken)));
    let (_, next) = register_user(checking(), Reply::Flag(true));
    assert_eq!(next, Next::Respond(Response::Rejected(ErrorKind::LoginTaken)));
}

#[test]
fn registration_fails_when_the_store_or_the_hash_fails() {
    let (_, next) = register_user_hashed(checking(), Reply::Failed, Some(String::from("h")));
    assert_eq!(next, Next::Respond(Response::Rejected(ErrorKind::InternalError)));
    let (_, next) = register_user_hashed(checking(), Reply::Flag(false), None);
    assert_eq!(next, Next::Respond(Response::Rejected(ErrorKind::InternalError)));
}

#[test]
fn the_first_registrant_becomes_administrator() {
    let (state, next) =
        register_user_hashed(checking(), Reply::Flag(false), Some(String::from("HASH")));
    assert_eq!(state.phase, RegisterPhase::CountingUsers);
    assert_eq!(state.account.hashed_password, "HASH");
    assert_eq!(next, Next::Ask(Action::CountUsers));
    let (state, next) = register_user_hashed(state, Reply::Count(0), None);
    assert_eq!(state.phase, RegisterPhase::InsertingUser);
    assert!(state.account.is_admin);
    let mut expected = checking().account;
    expected.hashed_password = String::from("HASH");
    expected.is_admin = true;
    assert_eq!(next, Next::Ask(Action::InsertUser { user: expected.clone() }));
    let (state, next) = register_user_hashed(state, Reply::Done, None);
    assert_eq!(state.phase, RegisterPhase::Finished);
    assert_eq!(next, Next::Respond(Response::Account(expected)));
}

#[test]
fn later_registrants_are_no_administrators() {
    let (state, _) =
        register_user_hashed(checking(), Reply::Flag(false), Some(String::from("HASH")));
    let (state, _) = register_user_hashed(state, Reply::Count(3), None);
    assert!(!state.account.is_admin);
    let (_, next) = register_user_hashed(state, Reply::Failed, None);
    assert_eq!(next, Next::Respond(Response::Rejected(ErrorKind::InternalError)));
}

#[test]
fn registration_hashes_the_password_once_the_login_is_free() {
    let (state, next) = register_user(checking(), Reply::Flag(false));
    assert_eq!(state.phase, RegisterPhase::CountingUsers);
    assert_eq!(next, Next::Ask(Action::CountUsers));
    assert_eq!(state.account.hashed_password.len(), 60);
    assert!(verify_password("s3cret", &state.account.hashed_password));
    let (state, _) = register_user(state, Reply::Count(1));
    assert_eq!(state.phase, RegisterPhase::InsertingUser);
    assert!(!state.account.is_admin);
}

#[test]
fn login_asks_for_the_account_of_that_name() {
    let data = UserLoginData { username: String::from("ann"), password: String::from("pw") };
    let (state, next) = start_login(data.into_login());
    assert_eq!(state.phase, LoginPhase::FindingAccount);
    assert_eq!(state.password, "pw");
    assert_eq!(next, Next::Ask(Action::FindUserByName { username: String::from("ann") }));
}

#[test]
fn login_is_decided_by_the_password_check() {
    let login = || start_login(UserLogin {
        username: String::from("ann"),
        password: String::from("pw"),
    }).0;
    let (state, next) = decide_login(login(), Reply::User(Some(account(4, false, "h"))), true);
    assert_eq!(state.phase, LoginPhase::Finished);
    assert_eq!(next, Next::Respond(Response::Account(account(4, false, "h"))));
    let (_, next) = decide_login(login(), Reply::User(Some(account(4, false, "h"))), false);
    assert_eq!(next, Next::Respond(Response::Rejected(ErrorKind::Unauthorized)));
    let (_, next) = decide_login(login(), Reply::User(None), true);
    assert_eq!(next, Next::Respond(Response::Rejected(ErrorKind::Unauthorized)));
    let (state, next) = decide_login(login(), Reply::Failed, true);
    assert_eq!(next, Next::Respond(Response::Rejected(ErrorKind::Unauthorized)));
    let (_, next) = decide_login(state, Reply::User(Some(account(4, false, "h"))), true);
    assert_eq!(next, Next::Respond(Response::Rejected(ErrorKind::InternalError)));
}

#[test]
fn login_checks_the_password_against_the_stored_hash() {
    let hashed = hash_password("pw").expect("hashing works");
    let login = |password: &str| start_login(UserLogin {
        username: String::from("ann"),
        password: String::from(password),
    }).0;
    let (_, next) = login_user(login("pw"), Reply::User(Some(account(4, false, &hashed))));
    assert_eq!(next, Next::Respond(Response::Account(account(4, false, &hashed))));
    let (_, next) = login_user(login("wrong"), Reply::User(Some(account(4, false, &hashed))));
    assert_eq!(next, Next::Respond(Response::Rejected(ErrorKind::Unauthorized)));
    let (_, next) = login_user(login("pw"), Reply::User(Some(account(4, false, "no hash"))));
    assert_eq!(next, Next::Respond(Response::Rejected(ErrorKind::Unauthorized)));
    let (_, next) = login_user(login("pw"), Reply::User(None));
    assert_eq!(next, Next::Respond(Response::Rejected(ErrorKind::Unauthorized)));
}

#[test]
fn token_reset_for_oneself() {
    let (state, next) =
        start_token_reset_keyed(String::from("key"), 4, String::from("NEWKEY"));
    assert_eq!(state.phase, ResetPhase::Authenticating);
    assert_eq!(next, Next::Ask(Action::FindUserByToken { token: String::from("key") }));
    let (state, next) = reset_user_token(state, Reply::User(Some(account(4, false, "h"))));
    assert_eq!(state.phase, ResetPhase::SettingToken);
    assert_eq!(next, Next::Ask(Action::SetToken { user_id: 4, token: String::from("NEWKEY") }));
    let (state, next) = reset_user_token(state, Reply::Done);
    assert_eq!(state.phase, ResetPhase::Finished);
    assert_eq!(next, Next::Respond(Response::Confirmed(Confirmation::TokenReset)));
    assert_eq!(Confirmation::TokenReset.text(), "Successfully reset token");
}

#[test]
fn token_reset_rejections() {
    let (state, _) = start_token_reset_keyed(String::from("key"), 5, String::from("N"));
    let (_, next) = reset_user_token(state, Reply::User(Some(account(4, false, "h"))));
    assert_eq!(next, Next::Respond(Response::Rejected(ErrorKind::Unauthorized)));

    let (state, _) = start_token_reset_keyed(String::from("key"), 5, String::from("N"));
    let (state, next) = reset_user_token(state, Reply::User(Some(account(4, true, "h"))));
    assert_eq!(next, Next::Ask(Action::SetToken { user_id: 5, token: String::from("N") }));
    let (_, next) = reset_user_token(state, Reply::Failed);
    assert_eq!(next, Next::Respond(Response::Rejected(ErrorKind::InternalError)));

    let (state, _) = start_token_reset_keyed(String::from("key"), 5, String::from("N"));
    let (_, next) = reset_user_token(state, Reply::User(None));
    assert_eq!(next, Next::Respond(Response::Rejected(ErrorKind::Unauthorized)));

    let (_, next) = start_token_reset_keyed(String::new(), 5, String::from("N"));
    assert_eq!(next, Next::Respond(Response::Rejected(ErrorKind::Unauthorized)));
}

#[test]
fn token_reset_draws_a_key_of_thirty_characters() {
    let (state, _) = start_token_reset(String::from("key"), 4);
    assert_eq!(state.api_key.chars().count(), 30);
    assert!(state.api_key.chars().all(|c| c.is_ascii_alphanumeric()));
}

fn change() -> PasswordUpdate {
    PasswordUpdate { password: String::from("old"), new_password: String::from("new") }
}

#[test]
fn password_change_is_decided_by_check_and_hash() {
    let (state, next) = start_password_change(String::from("key"), 4, change());
    assert_eq!(state.phase, ChangePhase::Authenticating);
    assert_eq!(next, Next::Ask(Action::FindUserByToken { token: String::from("key") }));
    let (state, next) =
        decide_password_change(state, Reply::User(Some(account(4, false, "h"))), false, None);
    assert_eq!(state.phase, ChangePhase::FindingAccount);
    assert_eq!(next, Next::Ask(Action::FindUserById { id: 4 }));
    let (state, next) = decide_password_change(
        state,
        Reply::User(Some(account(4, false, "h"))),
        true,
        Some(String::from("NEWHASH")),
    );
    assert_eq!(state.phase, ChangePhase::SettingPassword);
    assert_eq!(
        next,
        Next::Ask(Action::SetPassword { user_id: 4, hashed: String::from("NEWHASH") })
    );
    let (state, next) = decide_password_change(state, Reply::Done, false, None);
    assert_eq!(state.phase, ChangePhase::Finished);
    assert_eq!(next, Next::Respond(Response::Confirmed(Confirmation::PasswordUpdated)));
    assert_eq!(Confirmation::PasswordUpdated.text(), "Successfully updated user");
}

#[test]
fn password_change_rejections() {
    let finding = || {
        let (state, _) = start_password_change(String::from("key"), 4, change());
        decide_password_change(state, Reply::User(Some(account(4, false, "h"))), false, None).0
    };
    let (_, next) = decide_password_change(
        finding(),
        Reply::User(Some(account(4, false, "h"))),
        false,
        Some(String::from("NEWHASH")),
    );
    assert_eq!(next, Next::Respond(Response::Rejected(ErrorKind::Unauthorized)));
    let (_, next) =
        decide_password_change(finding(), Reply::User(Some(account(4, false, "h"))), true, None);
    assert_eq!(next, Next::Respond(Response::Rejected(ErrorKind::InternalError)));
    let (_, next) = decide_password_change(finding(), Reply::User(None), true, None);
    assert_eq!(next, Next::Respond(Response::Rejected(ErrorKind::InternalError)));

    let (state, _) = start_password_change(String::from("key"), 5, change());
    let (_, next) =
        decide_password_change(state, Reply::User(Some(account(4, false, "h"))), true, None);
    assert_eq!(next, Next::Respond(Response::Rejected(ErrorKind::Unauthorized)));

    let (_, next) = start_password_change(String::new(), 4, change());
    assert_eq!(next, Next::Respond(Response::Rejected(ErrorKind::Unauthorized)));
}

#[test]
fn password_change_checks_the_old_password_and_hashes_the_new_one() {
    let stored = hash_password("old").expect("hashing works");
    let (state, _) = start_password_change(String::from("key"), 4, change());
    let (state, _) = update_user_password(state, Reply::User(Some(account(4, false, &stored))));
    assert_eq!(state.phase, ChangePhase::FindingAccount);
    let (state, next) =
        update_user_password(state, Reply::User(Some(account(4, false, &stored))));
    assert_eq!(state.phase, ChangePhase::SettingPassword);
    match next {
        Next::Ask(Action::SetPassword { user_id, hashed }) => {
            assert_eq!(user_id, 4);
            assert!(verify_password("new", &hashed));
            assert!(!verify_password("old", &hashed));
        }
        other => panic!("unexpected step {:?}", other),
    }

    let other = hash_password("something else").expect("hashing works");
    let (state, _) = start_password_change(String::from("key"), 4, change());
    let (state, _) = update_user_password(state, Reply::User(Some(account(4, false, &other))));
    let (_, next) = update_user_password(state, Reply::User(Some(account(4, false, &other))));
    assert_eq!(next, Next::Respond(Response::Rejected(ErrorKind::Unauthorized)));
}
