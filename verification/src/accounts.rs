//! Accounts: registration, login, and the two changes that an account
//! allows, a new password and a new API key.

use crate::error::ErrorKind;
use crate::guard::{
    authorize, get_user, identify, identity_of, lookup, lookup_of, may_modify, resolved,
};
use crate::model::{
    clone_opt, opt_chars, PasswordUpdate, User, UserLogin, UserRegister, UserView,
};
use crate::naming::{fresh_token, is_token};
use crate::password::{accepts, hash_password, verify_password};
use crate::protocol::{
    Action, ActionView, Confirmation, Next, NextView, Reply, ReplyView, Response, ResponseView,
};
use vstd::prelude::*;
use vstd::string::*;

verus! {

/// Length of an API key.
pub const API_KEY_LENGTH: usize = 30;

/// What may be said of the outcome of hashing `password`: where there is a
/// hash, it is sixty characters long and accepts the password.
pub open spec fn hash_ok(password: Seq<char>, hashed: Option<Seq<char>>) -> bool {
    hashed matches Some(h) ==> h.len() == 60 && accepts(h, password)
}

/// Whether the account that a lookup found accepts `password`. Where the
/// lookup found none, nothing is accepted.
pub open spec fn offered_matches(reply: ReplyView, password: Seq<char>) -> bool {
    match reply {
        ReplyView::User(Some(account)) => accepts(account.hashed_password, password),
        _ => false,
    }
}

/// Where a registration stands.
#[derive(Clone, Copy, Debug, PartialEq, Eq, Structural)]
pub enum RegisterPhase {
    CheckingTaken,
    CountingUsers,
    InsertingUser,
    Finished,
}

/// A registration in progress: the account as far as it is known, and the
/// password until it has been hashed.
#[derive(Debug, PartialEq, Eq)]
pub struct Registration {
    pub phase: RegisterPhase,
    pub account: User,
    pub password: String,
}

pub struct RegistrationView {
    pub phase: RegisterPhase,
    pub account: UserView,
    pub password: Seq<char>,
}

impl View for Registration {
    type V = RegistrationView;

    open spec fn view(&self) -> RegistrationView {
        RegistrationView {
            phase: self.phase,
            account: self.account@,
            password: self.password@,
        }
    }
}

/// The registration has ended.
pub open spec fn register_stop(s: RegistrationView, response: ResponseView) -> (
    RegistrationView,
    NextView,
) {
    (RegistrationView { phase: RegisterPhase::Finished, ..s }, NextView::Respond(response))
}

/// The first state of a registration and its first question.
pub open spec fn register_start(
    username: Seq<char>,
    password: Seq<char>,
    email: Option<Seq<char>>,
    received_at: i64,
    api_key: Seq<char>,
) -> (RegistrationView, NextView) {
    (
        RegistrationView {
            phase: RegisterPhase::CheckingTaken,
            account: UserView {
                id: 0,
                username,
                email,
                is_admin: false,
                api_key: Some(api_key),
                last_update: received_at,
                created_at: received_at,
                hashed_password: Seq::empty(),
            },
            password,
        },
        NextView::Ask(ActionView::IsLoginTaken { username, email }),
    )
}

/// One step of a registration, given what hashing the password gave. A
/// taken name or email ends it, and a registration without email takes
/// and meets no email; the first account of all is the
/// administrator; the account is answered as it was handed to the store.
pub open spec fn register_next(
    s: RegistrationView,
    reply: ReplyView,
    hashed: Option<Seq<char>>,
) -> (RegistrationView, NextView) {
    match s.phase {
        RegisterPhase::CheckingTaken => match reply {
            ReplyView::Flag(true) => register_stop(
                s,
                ResponseView::Rejected(ErrorKind::LoginTaken),
            ),
            ReplyView::Flag(false) => match hashed {
                Some(h) => (
                    RegistrationView {
                        phase: RegisterPhase::CountingUsers,
                        account: UserView { hashed_password: h, ..s.account },
                        ..s
                    },
                    NextView::Ask(ActionView::CountUsers),
                ),
                None => register_stop(s, ResponseView::Rejected(ErrorKind::InternalError)),
            },
            _ => register_stop(s, ResponseView::Rejected(ErrorKind::InternalError)),
        },
        RegisterPhase::CountingUsers => match reply {
            ReplyView::Count(count) => (
                RegistrationView {
                    phase: RegisterPhase::InsertingUser,
                    account: UserView { is_admin: count == 0, ..s.account },
                    ..s
                },
                NextView::Ask(
                    ActionView::InsertUser {
                        user: UserView { is_admin: count == 0, ..s.account },
                    },
                ),
            ),
            _ => register_stop(s, ResponseView::Rejected(ErrorKind::InternalError)),
        },
        RegisterPhase::InsertingUser => match reply {
            ReplyView::Done => register_stop(s, ResponseView::Account(s.account)),
            _ => register_stop(s, ResponseView::Rejected(ErrorKind::InternalError)),
        },
        RegisterPhase::Finished => register_stop(
            s,
            ResponseView::Rejected(ErrorKind::InternalError),
        ),
    }
}

/// Whether a registration in state `s` hashes the password on `reply`.
pub open spec fn register_hashes(s: RegistrationView, reply: ReplyView) -> bool {
    s.phase == RegisterPhase::CheckingTaken && reply == ReplyView::Flag(false)
}

fn register_stop_with(state: Registration, response: Response) -> (step: (Registration, Next))
    ensures
        (step.0@, step.1@) == register_stop(state@, response@),
{
    let mut state = state;
    state.phase = RegisterPhase::Finished;
    (state, Next::Respond(response))
}

/// Begins a registration whose account gets the API key `api_key`.
pub fn start_registration_keyed(data: UserRegister, received_at: i64, api_key: String) -> (step: (
    Registration,
    Next,
))
    ensures
        (step.0@, step.1@) == register_start(
            data.username@,
            data.password@,
            opt_chars(data.email),
            received_at,
            api_key@,
        ),
{
    let UserRegister { username, password, email } = data;
    let state = Registration {
        phase: RegisterPhase::CheckingTaken,
        account: User {
            id: 0,
            username: username.clone(),
            email: clone_opt(&email),
            is_admin: false,
            api_key: Some(api_key),
            last_update: received_at,
            created_at: received_at,
            hashed_password: String::new(),
        },
        password,
    };
    (state, Next::Ask(Action::IsLoginTaken { username, email }))
}

/// Begins a registration: draws the account's API key and asks whether the
/// name or the email is taken.
pub fn start_registration(data: UserRegister, received_at: i64) -> (step: (Registration, Next))
    ensures
        exists|api_key: Seq<char>|
            is_token(api_key, API_KEY_LENGTH as nat) && (step.0@, step.1@) == register_start(
                data.username@,
                data.password@,
                opt_chars(data.email),
                received_at,
                api_key,
            ),
{
    let api_key = fresh_token(API_KEY_LENGTH);
    start_registration_keyed(data, received_at, api_key)
}

/// Takes a registration one step further, with `hashed` as the outcome of
/// hashing the password.
pub fn register_user_hashed(state: Registration, reply: Reply, hashed: Option<String>) -> (step: (
    Registration,
    Next,
))
    ensures
        (step.0@, step.1@) == register_next(state@, reply@, opt_chars(hashed)),
{
    match state.phase {
        RegisterPhase::CheckingTaken => match reply {
            Reply::Flag(true) => register_stop_with(
                state,
                Response::Rejected(ErrorKind::LoginTaken),
            ),
            Reply::Flag(false) => match hashed {
                Some(h) => {
                    let mut state = state;
                    state.phase = RegisterPhase::CountingUsers;
                    state.account.hashed_password = h;
                    (state, Next::Ask(Action::CountUsers))
                },
                None => register_stop_with(state, Response::Rejected(ErrorKind::InternalError)),
            },
            _ => register_stop_with(state, Response::Rejected(ErrorKind::InternalError)),
        },
        RegisterPhase::CountingUsers => match reply {
            Reply::Count(count) => {
                let mut state = state;
                state.phase = RegisterPhase::InsertingUser;
                state.account.is_admin = count == 0;
                let user = state.account.clone();
                (state, Next::Ask(Action::InsertUser { user }))
            },
            _ => register_stop_with(state, Response::Rejected(ErrorKind::InternalError)),
        },
        RegisterPhase::InsertingUser => match reply {
            Reply::Done => {
                let account = state.account.clone();
                register_stop_with(state, Response::Account(account))
            },
            _ => register_stop_with(state, Response::Rejected(ErrorKind::InternalError)),
        },
        RegisterPhase::Finished => register_stop_with(
            state,
            Response::Rejected(ErrorKind::InternalError),
        ),
    }
}

/// Takes a registration one step further. The password is hashed once the
/// store has said that name and email are free, and only then.
pub fn register_user(state: Registration, reply: Reply) -> (step: (Registration, Next))
    ensures
        exists|hashed: Option<Seq<char>>|
            hash_ok(state.password@, hashed) && (step.0@, step.1@) == register_next(
                state@,
                reply@,
                hashed,
            ),
        !register_hashes(state@, reply@) ==> (step.0@, step.1@) == register_next(
            state@,
            reply@,
            None,
        ),
{
    let hashes = match (state.phase, &reply) {
        (RegisterPhase::CheckingTaken, Reply::Flag(false)) => true,
        _ => false,
    };
    let hashed = if hashes {
        hash_password(state.password.as_str())
    } else {
        None
    };
    let ghost witness = opt_chars(hashed);
    let step = register_user_hashed(state, reply, hashed);
    assert(hash_ok(state.password@, witness) && (step.0@, step.1@) == register_next(
        state@,
        reply@,
        witness,
    ));
    step
}

/// Where a login stands.
#[derive(Clone, Copy, Debug, PartialEq, Eq, Structural)]
pub enum LoginPhase {
    FindingAccount,
    Finished,
}

/// A login in progress: the password that was offered.
#[derive(Debug, PartialEq, Eq)]
pub struct Login {
    pub phase: LoginPhase,
    pub password: String,
}

pub struct LoginView {
    pub phase: LoginPhase,
    pub password: Seq<char>,
}

impl View for Login {
    type V = LoginView;

    open spec fn view(&self) -> LoginView {
        LoginView { phase: self.phase, password: self.password@ }
    }
}

pub open spec fn login_start(username: Seq<char>, password: Seq<char>) -> (LoginView, NextView) {
    (
        LoginView { phase: LoginPhase::FindingAccount, password },
        NextView::Ask(ActionView::FindUserByName { username }),
    )
}

/// The one step of a login, given whether the account found accepts the
/// password: the account is the answer if it does. An unknown name and a
/// wrong password are turned down alike.
pub open spec fn login_next(s: LoginView, reply: ReplyView, matches: bool) -> (
    LoginView,
    NextView,
) {
    let done = LoginView { phase: LoginPhase::Finished, ..s };
    match s.phase {
        LoginPhase::FindingAccount => match reply {
            ReplyView::User(Some(account)) => if matches {
                (done, NextView::Respond(ResponseView::Account(account)))
            } else {
                (done, NextView::Respond(ResponseView::Rejected(ErrorKind::Unauthorized)))
            },
            _ => (done, NextView::Respond(ResponseView::Rejected(ErrorKind::Unauthorized))),
        },
        LoginPhase::Finished => (
            done,
            NextView::Respond(ResponseView::Rejected(ErrorKind::InternalError)),
        ),
    }
}

/// Begins a login: asks for the account of that name.
pub fn start_login(data: UserLogin) -> (step: (Login, Next))
    ensures
        (step.0@, step.1@) == login_start(data.username@, data.password@),
{
    let UserLogin { username, password } = data;
    (
        Login { phase: LoginPhase::FindingAccount, password },
        Next::Ask(Action::FindUserByName { username }),
    )
}

/// Ends a login, with `matches` as the outcome of checking the password
/// against the account found.
pub fn decide_login(state: Login, reply: Reply, matches: bool) -> (step: (Login, Next))
    ensures
        (step.0@, step.1@) == login_next(state@, reply@, matches),
{
    let done = Login { phase: LoginPhase::Finished, password: state.password };
    match state.phase {
        LoginPhase::FindingAccount => match reply {
            Reply::User(Some(account)) => if matches {
                (done, Next::Respond(Response::Account(account)))
            } else {
                (done, Next::Respond(Response::Rejected(ErrorKind::Unauthorized)))
            },
            _ => (done, Next::Respond(Response::Rejected(ErrorKind::Unauthorized))),
        },
        LoginPhase::Finished => (done, Next::Respond(Response::Rejected(ErrorKind::InternalError))),
    }
}

/// Ends a login: checks the offered password against the account found.
pub fn login_user(state: Login, reply: Reply) -> (step: (Login, Next))
    ensures
        (step.0@, step.1@) == login_next(
            state@,
            reply@,
            offered_matches(reply@, state.password@),
        ),
{
    let matches = match &reply {
        Reply::User(Some(account)) => verify_password(
            state.password.as_str(),
            account.hashed_password.as_str(),
        ),
        _ => false,
    };
    decide_login(state, reply, matches)
}

/// Where a token reset stands.
#[derive(Clone, Copy, Debug, PartialEq, Eq, Structural)]
pub enum ResetPhase {
    Authenticating,
    SettingToken,
    Finished,
}

/// A token reset in progress: the account to change and its new key.
#[derive(Debug, PartialEq, Eq)]
pub struct TokenReset {
    pub phase: ResetPhase,
    pub user_id: i64,
    pub api_key: String,
}

pub struct TokenResetView {
    pub phase: ResetPhase,
    pub user_id: i64,
    pub api_key: Seq<char>,
}

impl View for TokenReset {
    type V = TokenResetView;

    open spec fn view(&self) -> TokenResetView {
        TokenResetView { phase: self.phase, user_id: self.user_id, api_key: self.api_key@ }
    }
}

/// The reset has ended.
pub open spec fn reset_stop(s: TokenResetView, response: ResponseView) -> (
    TokenResetView,
    NextView,
) {
    (TokenResetView { phase: ResetPhase::Finished, ..s }, NextView::Respond(response))
}

pub open spec fn reset_start(token: Seq<char>, user_id: i64, api_key: Seq<char>) -> (
    TokenResetView,
    NextView,
) {
    let s = TokenResetView { phase: ResetPhase::Authenticating, user_id, api_key };
    match lookup_of(token) {
        NextView::Ask(action) => (s, NextView::Ask(action)),
        NextView::Respond(response) => reset_stop(s, response),
    }
}

/// One step of a token reset: the key of an account is replaced for the
/// account itself and for an administrator.
pub open spec fn reset_next(s: TokenResetView, reply: ReplyView) -> (TokenResetView, NextView) {
    match s.phase {
        ResetPhase::Authenticating => match resolved(reply) {
            Some(user) => if may_modify(identity_of(user), s.user_id) {
                (
                    TokenResetView { phase: ResetPhase::SettingToken, ..s },
                    NextView::Ask(ActionView::SetToken { user_id: s.user_id, token: s.api_key }),
                )
            } else {
                reset_stop(s, ResponseView::Rejected(ErrorKind::Unauthorized))
            },
            None => reset_stop(s, ResponseView::Rejected(ErrorKind::Unauthorized)),
        },
        ResetPhase::SettingToken => match reply {
            ReplyView::Done => reset_stop(s, ResponseView::Confirmed(Confirmation::TokenReset)),
            _ => reset_stop(s, ResponseView::Rejected(ErrorKind::InternalError)),
        },
        ResetPhase::Finished => reset_stop(s, ResponseView::Rejected(ErrorKind::InternalError)),
    }
}

fn reset_stop_with(state: TokenReset, response: Response) -> (step: (TokenReset, Next))
    ensures
        (step.0@, step.1@) == reset_stop(state@, response@),
{
    let mut state = state;
    state.phase = ResetPhase::Finished;
    (state, Next::Respond(response))
}

/// Begins a token reset that gives account `user_id` the key `api_key`.
pub fn start_token_reset_keyed(token: String, user_id: i64, api_key: String) -> (step: (
    TokenReset,
    Next,
))
    ensures
        (step.0@, step.1@) == reset_start(token@, user_id, api_key@),
{
    let state = TokenReset { phase: ResetPhase::Authenticating, user_id, api_key };
    match lookup(token) {
        Next::Ask(action) => (state, Next::Ask(action)),
        Next::Respond(response) => reset_stop_with(state, response),
    }
}

/// Begins a token reset: draws the new key and asks who the requester is.
pub fn start_token_reset(token: String, user_id: i64) -> (step: (TokenReset, Next))
    ensures
        exists|api_key: Seq<char>|
            is_token(api_key, API_KEY_LENGTH as nat) && (step.0@, step.1@) == reset_start(
                token@,
                user_id,
                api_key,
            ),
{
    let api_key = fresh_token(API_KEY_LENGTH);
    start_token_reset_keyed(token, user_id, api_key)
}

/// Takes a token reset one step further.
pub fn reset_user_token(state: TokenReset, reply: Reply) -> (step: (TokenReset, Next))
    ensures
        (step.0@, step.1@) == reset_next(state@, reply@),
{
    match state.phase {
        ResetPhase::Authenticating => match get_user(reply) {
            Ok(user) => match authorize(identify(&user), state.user_id) {
                Ok(()) => {
                    let mut state = state;
                    state.phase = ResetPhase::SettingToken;
                    let token = state.api_key.clone();
                    let user_id = state.user_id;
                    (state, Next::Ask(Action::SetToken { user_id, token }))
                },
                Err(kind) => reset_stop_with(state, Response::Rejected(kind)),
            },
            Err(kind) => reset_stop_with(state, Response::Rejected(kind)),
        },
        ResetPhase::SettingToken => match reply {
            Reply::Done => reset_stop_with(state, Response::Confirmed(Confirmation::TokenReset)),
            _ => reset_stop_with(state, Response::Rejected(ErrorKind::InternalError)),
        },
        ResetPhase::Finished => reset_stop_with(
            state,
            Response::Rejected(ErrorKind::InternalError),
        ),
    }
}

/// Where a password change stands.
#[derive(Clone, Copy, Debug, PartialEq, Eq, Structural)]
pub enum ChangePhase {
    Authenticating,
    FindingAccount,
    SettingPassword,
    Finished,
}

/// A password change in progress: the account to change, its current
/// password as the requester gave it, and the password to set.
#[derive(Debug, PartialEq, Eq)]
pub struct PasswordChange {
    pub phase: ChangePhase,
    pub user_id: i64,
    pub password: String,
    pub new_password: String,
}

pub struct PasswordChangeView {
    pub phase: ChangePhase,
    pub user_id: i64,
    pub password: Seq<char>,
    pub new_password: Seq<char>,
}

impl View for PasswordChange {
    type V = PasswordChangeView;

    open spec fn view(&self) -> PasswordChangeView {
        PasswordChangeView {
            phase: self.phase,
            user_id: self.user_id,
            password: self.password@,
            new_password: self.new_password@,
        }
    }
}

/// The change has ended.
pub open spec fn change_stop(s: PasswordChangeView, response: ResponseView) -> (
    PasswordChangeView,
    NextView,
) {
    (PasswordChangeView { phase: ChangePhase::Finished, ..s }, NextView::Respond(response))
}

pub open spec fn change_start(
    token: Seq<char>,
    user_id: i64,
    password: Seq<char>,
    new_password: Seq<char>,
) -> (PasswordChangeView, NextView) {
    let s = PasswordChangeView {
        phase: ChangePhase::Authenticating,
        user_id,
        password,
        new_password,
    };
    match lookup_of(token) {
        NextView::Ask(action) => (s, NextView::Ask(action)),
        NextView::Respond(response) => change_stop(s, response),
    }
}

/// One step of a password change, given whether the account accepts the
/// current password as offered and what hashing the new one gave. The
/// requester must be the account or an administrator, and must know the
/// account's current password either way.
pub open spec fn change_next(
    s: PasswordChangeView,
    reply: ReplyView,
    matches: bool,
    hashed: Option<Seq<char>>,
) -> (PasswordChangeView, NextView) {
    match s.phase {
        ChangePhase::Authenticating => match resolved(reply) {
            Some(user) => if may_modify(identity_of(user), s.user_id) {
                (
                    PasswordChangeView { phase: ChangePhase::FindingAccount, ..s },
                    NextView::Ask(ActionView::FindUserById { id: s.user_id }),
                )
            } else {
                change_stop(s, ResponseView::Rejected(ErrorKind::Unauthorized))
            },
            None => change_stop(s, ResponseView::Rejected(ErrorKind::Unauthorized)),
        },
        ChangePhase::FindingAccount => match reply {
            ReplyView::User(Some(account)) => if !matches {
                change_stop(s, ResponseView::Rejected(ErrorKind::Unauthorized))
            } else {
                match hashed {
                    Some(h) => (
                        PasswordChangeView { phase: ChangePhase::SettingPassword, ..s },
                        NextView::Ask(ActionView::SetPassword { user_id: s.user_id, hashed: h }),
                    ),
                    None => change_stop(s, ResponseView::Rejected(ErrorKind::InternalError)),
                }
            },
            _ => change_stop(s, ResponseView::Rejected(ErrorKind::InternalError)),
        },
        ChangePhase::SettingPassword => match reply {
            ReplyView::Done => change_stop(
                s,
                ResponseView::Confirmed(Confirmation::PasswordUpdated),
            ),
            _ => change_stop(s, ResponseView::Rejected(ErrorKind::InternalError)),
        },
        ChangePhase::Finished => change_stop(s, ResponseView::Rejected(ErrorKind::InternalError)),
    }
}

fn change_stop_with(state: PasswordChange, response: Response) -> (step: (PasswordChange, Next))
    ensures
        (step.0@, step.1@) == change_stop(state@, response@),
{
    let mut state = state;
    state.phase = ChangePhase::Finished;
    (state, Next::Respond(response))
}

/// Begins a password change on account `user_id`.
pub fn start_password_change(token: String, user_id: i64, update: PasswordUpdate) -> (step: (
    PasswordChange,
    Next,
))
    ensures
        (step.0@, step.1@) == change_start(
            token@,
            user_id,
            update.password@,
            update.new_password@,
        ),
{
    let PasswordUpdate { password, new_password } = update;
    let state = PasswordChange {
        phase: ChangePhase::Authenticating,
        user_id,
        password,
        new_password,
    };
    match lookup(token) {
        Next::Ask(action) => (state, Next::Ask(action)),
        Next::Respond(response) => change_stop_with(state, response),
    }
}

/// Takes a password change one step further, with `matches` as the outcome
/// of checking the current password and `hashed` as that of hashing the
/// new one.
pub fn decide_password_change(
    state: PasswordChange,
    reply: Reply,
    matches: bool,
    hashed: Option<String>,
) -> (step: (PasswordChange, Next))
    ensures
        (step.0@, step.1@) == change_next(state@, reply@, matches, opt_chars(hashed)),
{
    match state.phase {
        ChangePhase::Authenticating => match get_user(reply) {
            Ok(user) => match authorize(identify(&user), state.user_id) {
                Ok(()) => {
                    let mut state = state;
                    state.phase = ChangePhase::FindingAccount;
                    let id = state.user_id;
                    (state, Next::Ask(Action::FindUserById { id }))
                },
                Err(kind) => change_stop_with(state, Response::Rejected(kind)),
            },
            Err(kind) => change_stop_with(state, Response::Rejected(kind)),
        },
        ChangePhase::FindingAccount => match reply {
            Reply::User(Some(_)) => if !matches {
                change_stop_with(state, Response::Rejected(ErrorKind::Unauthorized))
            } else {
                match hashed {
                    Some(h) => {
                        let mut state = state;
                        state.phase = ChangePhase::SettingPassword;
                        let user_id = state.user_id;
                        (state, Next::Ask(Action::SetPassword { user_id, hashed: h }))
                    },
                    None => change_stop_with(state, Response::Rejected(ErrorKind::InternalError)),
                }
            },
            _ => change_stop_with(state, Response::Rejected(ErrorKind::InternalError)),
        },
        ChangePhase::SettingPassword => match reply {
            Reply::Done => change_stop_with(
                state,
                Response::Confirmed(Confirmation::PasswordUpdated),
            ),
            _ => change_stop_with(state, Response::Rejected(ErrorKind::InternalError)),
        },
        ChangePhase::Finished => change_stop_with(
            state,
            Response::Rejected(ErrorKind::InternalError),
        ),
    }
}

/// Takes a password change one step further. The current password is
/// checked against the account once it has been found, and the new one is
/// hashed only if that check passed.
pub fn update_user_password(state: PasswordChange, reply: Reply) -> (step: (PasswordChange, Next))
    ensures
        exists|hashed: Option<Seq<char>>|
            hash_ok(state.new_password@, hashed) && (step.0@, step.1@) == change_next(
                state@,
                reply@,
                offered_matches(reply@, state.password@),
                hashed,
            ),
{
    let matches = match (state.phase, &reply) {
        (ChangePhase::FindingAccount, Reply::User(Some(account))) => verify_password(
            state.password.as_str(),
            account.hashed_password.as_str(),
        ),
        _ => false,
    };
    let hashed = if matches {
        hash_password(state.new_password.as_str())
    } else {
        None
    };
    let ghost witness = opt_chars(hashed);
    let step = decide_password_change(state, reply, matches, hashed);
    assert(hash_ok(state.new_password@, witness) && (step.0@, step.1@) == change_next(
        state@,
        reply@,
        offered_matches(reply@, state.password@),
        witness,
    ));
    step
}

} // verus!
