//! Account requests served from the service in memory.

use crate::accounts::{
    change_next, hash_ok, login_user,
    offered_matches, register_next, register_user, reset_next, reset_user_token, start_login, start_password_change, start_registration_keyed,
    start_token_reset_keyed, update_user_password, ChangePhase, PasswordChangeView,
    RegisterPhase, RegistrationView, ResetPhase, TokenResetView, API_KEY_LENGTH,
};
use crate::error::ErrorKind;
use crate::guard::{identity_of, may_modify};
use crate::model::{opt_chars, PasswordUpdate, UserLogin, UserRegister, UserView};
use crate::naming::{fresh_token, is_token};
use crate::outcomes::{
    account_of, change_outcome, login_outcome, register_outcome, requester, reset_outcome,
    ChangeView, RegisterView,
};
use crate::password::accepts;
use crate::protocol::{ActionView, Next, NextView, Response};
use crate::service::{answer, FormPart, Service, ServiceView};
use vstd::prelude::*;
use vstd::string::*;

verus! {

/// How far a registration is from its end.
spec fn register_rank(phase: RegisterPhase) -> int {
    match phase {
        RegisterPhase::CheckingTaken => 3,
        RegisterPhase::CountingUsers => 2,
        RegisterPhase::InsertingUser => 1,
        RegisterPhase::Finished => 0,
    }
}

/// The account of a registration before its password is hashed.
spec fn blank_account(request: RegisterView, api_key: Seq<char>) -> UserView {
    UserView {
        id: 0,
        username: request.username,
        email: request.email,
        is_admin: false,
        api_key: Some(api_key),
        last_update: request.received_at,
        created_at: request.received_at,
        hashed_password: Seq::empty(),
    }
}

/// What holds between the service and a registration under way: the store
/// is untouched until the account is inserted.
spec fn register_reached(
    w0: ServiceView,
    request: RegisterView,
    api_key: Seq<char>,
    hashed: Option<Seq<char>>,
    w: ServiceView,
    s: RegistrationView,
    next: NextView,
) -> bool {
    match next {
        NextView::Respond(response) => (w, response) == register_outcome(
            w0,
            request,
            api_key,
            hashed,
        ),
        NextView::Ask(action) => {
            let taken = w0.store.login_taken(request.username, request.email);
            &&& w == w0
            &&& s.password == request.password
            &&& match s.phase {
                RegisterPhase::CheckingTaken => {
                    &&& s.account == blank_account(request, api_key)
                    &&& action == ActionView::IsLoginTaken {
                        username: request.username,
                        email: request.email,
                    }
                },
                RegisterPhase::CountingUsers => {
                    &&& !taken
                    &&& hashed is Some
                    &&& s.account == UserView {
                        hashed_password: hashed->0,
                        ..blank_account(request, api_key)
                    }
                    &&& action == ActionView::CountUsers
                },
                RegisterPhase::InsertingUser => {
                    &&& !taken
                    &&& hashed is Some
                    &&& w0.store.users.len() <= i64::MAX
                    &&& s.account == account_of(w0, request, api_key, hashed->0)
                    &&& action == ActionView::InsertUser {
                        user: account_of(w0, request, api_key, hashed->0),
                    }
                },
                RegisterPhase::Finished => false,
            }
        },
    }
}

/// One question answered and one step taken keep `register_reached`, and
/// bring the registration nearer to its end. `step_hash` is what hashing
/// gave in this step, `hashed` what it gives in the whole run: the two are
/// one where this is the step that hashes.
proof fn lemma_register_advances(
    w0: ServiceView,
    request: RegisterView,
    api_key: Seq<char>,
    hashed: Option<Seq<char>>,
    step_hash: Option<Seq<char>>,
    w: ServiceView,
    s: RegistrationView,
    action: ActionView,
)
    requires
        register_reached(w0, request, api_key, hashed, w, s, NextView::Ask(action)),
        s.phase == RegisterPhase::CheckingTaken ==> hashed == step_hash,
    ensures
        ({
            let (w2, cursor2, reply) = answer(w, None, 0, action);
            let (s2, next2) = register_next(s, reply, step_hash);
            &&& cursor2 == 0
            &&& register_reached(w0, request, api_key, hashed, w2, s2, next2)
            &&& register_rank(s2.phase) < register_rank(s.phase)
        }),
{
}

/// How far a token reset is from its end.
spec fn reset_rank(phase: ResetPhase) -> int {
    match phase {
        ResetPhase::Authenticating => 2,
        ResetPhase::SettingToken => 1,
        ResetPhase::Finished => 0,
    }
}

/// What holds between the service and a token reset under way.
spec fn reset_reached(
    w0: ServiceView,
    token: Seq<char>,
    user_id: i64,
    api_key: Seq<char>,
    w: ServiceView,
    s: TokenResetView,
    next: NextView,
) -> bool {
    match next {
        NextView::Respond(response) => (w, response) == reset_outcome(
            w0,
            token,
            user_id,
            api_key,
        ),
        NextView::Ask(action) => {
            &&& w == w0
            &&& s.user_id == user_id
            &&& s.api_key == api_key
            &&& match s.phase {
                ResetPhase::Authenticating => {
                    &&& token.len() > 0
                    &&& action == ActionView::FindUserByToken { token }
                },
                ResetPhase::SettingToken => {
                    &&& requester(w0, token) is Some
                    &&& may_modify(identity_of(requester(w0, token)->0), user_id)
                    &&& action == ActionView::SetToken { user_id, token: api_key }
                },
                ResetPhase::Finished => false,
            }
        },
    }
}

/// One question answered and one step taken keep `reset_reached`, and
/// bring the reset nearer to its end.
proof fn lemma_reset_advances(
    w0: ServiceView,
    token: Seq<char>,
    user_id: i64,
    api_key: Seq<char>,
    w: ServiceView,
    s: TokenResetView,
    action: ActionView,
)
    requires
        reset_reached(w0, token, user_id, api_key, w, s, NextView::Ask(action)),
    ensures
        ({
            let (w2, cursor2, reply) = answer(w, None, 0, action);
            let (s2, next2) = reset_next(s, reply);
            &&& cursor2 == 0
            &&& reset_reached(w0, token, user_id, api_key, w2, s2, next2)
            &&& reset_rank(s2.phase) < reset_rank(s.phase)
        }),
{
}

/// How far a password change is from its end.
spec fn change_rank(phase: ChangePhase) -> int {
    match phase {
        ChangePhase::Authenticating => 3,
        ChangePhase::FindingAccount => 2,
        ChangePhase::SettingPassword => 1,
        ChangePhase::Finished => 0,
    }
}

/// What holds between the service and a password change under way.
spec fn change_reached(
    w0: ServiceView,
    request: ChangeView,
    hashed: Option<Seq<char>>,
    w: ServiceView,
    s: PasswordChangeView,
    next: NextView,
) -> bool {
    match next {
        NextView::Respond(response) => (w, response) == change_outcome(w0, request, hashed),
        NextView::Ask(action) => {
            let user = requester(w0, request.token);
            let account = w0.store.user_by_id(request.user_id);
            &&& w == w0
            &&& s.user_id == request.user_id
            &&& s.password == request.password
            &&& s.new_password == request.new_password
            &&& match s.phase {
                ChangePhase::Authenticating => {
                    &&& request.token.len() > 0
                    &&& action == ActionView::FindUserByToken { token: request.token }
                },
                ChangePhase::FindingAccount => {
                    &&& user is Some
                    &&& may_modify(identity_of(user->0), request.user_id)
                    &&& action == ActionView::FindUserById { id: request.user_id }
                },
                ChangePhase::SettingPassword => {
                    &&& user is Some
                    &&& may_modify(identity_of(user->0), request.user_id)
                    &&& account is Some
                    &&& accepts(account->0.hashed_password, request.password)
                    &&& hashed is Some
                    &&& action == ActionView::SetPassword {
                        user_id: request.user_id,
                        hashed: hashed->0,
                    }
                },
                ChangePhase::Finished => false,
            }
        },
    }
}

/// One question answered and one step taken keep `change_reached`, and
/// bring the change nearer to its end.
proof fn lemma_change_advances(
    w0: ServiceView,
    request: ChangeView,
    hashed: Option<Seq<char>>,
    step_hash: Option<Seq<char>>,
    w: ServiceView,
    s: PasswordChangeView,
    action: ActionView,
)
    requires
        change_reached(w0, request, hashed, w, s, NextView::Ask(action)),
        s.phase == ChangePhase::FindingAccount ==> hashed == step_hash,
    ensures
        ({
            let (w2, cursor2, reply) = answer(w, None, 0, action);
            let (s2, next2) = change_next(
                s,
                reply,
                offered_matches(reply, s.password),
                step_hash,
            );
            &&& cursor2 == 0
            &&& change_reached(w0, request, hashed, w2, s2, next2)
            &&& change_rank(s2.phase) < change_rank(s.phase)
        }),
{
}

/// The view of a registration that arrived at `received_at`.
pub open spec fn register_view(data: UserRegister, received_at: i64) -> RegisterView {
    RegisterView {
        username: data.username@,
        password: data.password@,
        email: opt_chars(data.email),
        received_at,
    }
}

/// The view of a password change on account `user_id`.
pub open spec fn change_view(token: String, user_id: i64, update: PasswordUpdate) -> ChangeView {
    ChangeView {
        token: token@,
        user_id,
        password: update.password@,
        new_password: update.new_password@,
    }
}

impl Service {
    /// Serves a registration whose account gets the API key `api_key`.
    pub fn register_keyed(&mut self, data: UserRegister, received_at: i64, api_key: String) -> (response:
        Response)
        ensures
            exists|hashed: Option<Seq<char>>|
                hash_ok(data.password@, hashed) && (final(self)@, response@) == register_outcome(
                    old(self)@,
                    register_view(data, received_at),
                    api_key@,
                    hashed,
                ),
    {
        let ghost w0 = self@;
        let ghost asked = register_view(data, received_at);
        let ghost key = api_key@;
        let ghost mut hashed: Option<Seq<char>> = None;
        let (mut state, mut next) = start_registration_keyed(data, received_at, api_key);
        let mut cursor: usize = 0;
        let form: Option<Vec<FormPart>> = None;
        loop
            invariant
                w0 == old(self)@,
                asked == register_view(data, received_at),
                key == api_key@,
                cursor == 0,
                form is None,
                hash_ok(asked.password, hashed),
                register_reached(w0, asked, key, hashed, self@, state@, next@),
            decreases (if next is Ask { 1int } else { 0int }), register_rank(state.phase),
        {
            match next {
                Next::Respond(response) => {
                    return response;
                },
                Next::Ask(action) => {
                    let ghost before = state@;
                    let ghost world = self@;
                    let ghost asking = action@;
                    let reply = self.perform(&form, &mut cursor, action);
                    let ghost told = reply@;
                    let (state2, next2) = register_user(state, reply);
                    proof {
                        let step_hash = choose|h: Option<Seq<char>>|
                            hash_ok(before.password, h) && (state2@, next2@) == register_next(
                                before,
                                told,
                                h,
                            );
                        if before.phase == RegisterPhase::CheckingTaken {
                            hashed = step_hash;
                        }
                        lemma_register_advances(
                            w0,
                            asked,
                            key,
                            hashed,
                            step_hash,
                            world,
                            before,
                            asking,
                        );
                    }
                    state = state2;
                    next = next2;
                },
            }
        }
    }

    /// Serves a registration. The account's API key is drawn at random.
    pub fn register(&mut self, data: UserRegister, received_at: i64) -> (response: Response)
        ensures
            exists|api_key: Seq<char>, hashed: Option<Seq<char>>|
                is_token(api_key, API_KEY_LENGTH as nat) && hash_ok(data.password@, hashed) && (
                final(self)@, response@) == register_outcome(
                    old(self)@,
                    register_view(data, received_at),
                    api_key,
                    hashed,
                ),
    {
        let api_key = fresh_token(API_KEY_LENGTH);
        let ghost key = api_key@;
        let response = self.register_keyed(data, received_at, api_key);
        proof {
            let hashed = choose|hashed: Option<Seq<char>>|
                hash_ok(data.password@, hashed) && (self@, response@) == register_outcome(
                    old(self)@,
                    register_view(data, received_at),
                    key,
                    hashed,
                );
            assert(is_token(key, API_KEY_LENGTH as nat) && hash_ok(data.password@, hashed) && (
            self@, response@) == register_outcome(
                old(self)@,
                register_view(data, received_at),
                key,
                hashed,
            ));
        }
        response
    }

    /// Serves a login. The stores stay as they are.
    pub fn login(&mut self, data: UserLogin) -> (response: Response)
        ensures
            final(self)@ == old(self)@,
            response@ == login_outcome(old(self)@, data.username@, data.password@),
    {
        let mut cursor: usize = 0;
        let form: Option<Vec<FormPart>> = None;
        let (state, next) = start_login(data);
        match next {
            Next::Ask(action) => {
                let reply = self.perform(&form, &mut cursor, action);
                let (_, next2) = login_user(state, reply);
                match next2 {
                    Next::Respond(response) => response,
                    Next::Ask(_) => Response::Rejected(ErrorKind::Unauthorized),
                }
            },
            Next::Respond(response) => response,
        }
    }

    /// Serves a token reset that gives account `user_id` the key `api_key`.
    pub fn reset_token_keyed(&mut self, token: String, user_id: i64, api_key: String) -> (response:
        Response)
        ensures
            (final(self)@, response@) == reset_outcome(old(self)@, token@, user_id, api_key@),
    {
        let ghost w0 = self@;
        let ghost bearer = token@;
        let ghost key = api_key@;
        let (mut state, mut next) = start_token_reset_keyed(token, user_id, api_key);
        let mut cursor: usize = 0;
        let form: Option<Vec<FormPart>> = None;
        loop
            invariant
                w0 == old(self)@,
                bearer == token@,
                key == api_key@,
                cursor == 0,
                form is None,
                reset_reached(w0, bearer, user_id, key, self@, state@, next@),
            decreases (if next is Ask { 1int } else { 0int }), reset_rank(state.phase),
        {
            match next {
                Next::Respond(response) => {
                    return response;
                },
                Next::Ask(action) => {
                    proof {
                        lemma_reset_advances(w0, bearer, user_id, key, self@, state@, action@);
                    }
                    let reply = self.perform(&form, &mut cursor, action);
                    let (state2, next2) = reset_user_token(state, reply);
                    state = state2;
                    next = next2;
                },
            }
        }
    }

    /// Serves a token reset. The new key is drawn at random.
    pub fn reset_token(&mut self, token: String, user_id: i64) -> (response: Response)
        ensures
            exists|api_key: Seq<char>|
                is_token(api_key, API_KEY_LENGTH as nat) && (final(self)@, response@)
                    == reset_outcome(old(self)@, token@, user_id, api_key),
    {
        let api_key = fresh_token(API_KEY_LENGTH);
        let ghost key = api_key@;
        let response = self.reset_token_keyed(token, user_id, api_key);
        assert(is_token(key, API_KEY_LENGTH as nat) && (self@, response@) == reset_outcome(
            old(self)@,
            token@,
            user_id,
            key,
        ));
        response
    }

    /// Serves a password change.
    pub fn change_password(&mut self, token: String, user_id: i64, update: PasswordUpdate) -> (response:
        Response)
        ensures
            exists|hashed: Option<Seq<char>>|
                hash_ok(update.new_password@, hashed) && (final(self)@, response@)
                    == change_outcome(old(self)@, change_view(token, user_id, update), hashed),
    {
        let ghost w0 = self@;
        let ghost asked = change_view(token, user_id, update);
        let ghost mut hashed: Option<Seq<char>> = None;
        let (mut state, mut next) = start_password_change(token, user_id, update);
        let mut cursor: usize = 0;
        let form: Option<Vec<FormPart>> = None;
        loop
            invariant
                w0 == old(self)@,
                asked == change_view(token, user_id, update),
                cursor == 0,
                form is None,
                hash_ok(asked.new_password, hashed),
                change_reached(w0, asked, hashed, self@, state@, next@),
            decreases (if next is Ask { 1int } else { 0int }), change_rank(state.phase),
        {
            match next {
                Next::Respond(response) => {
                    return response;
                },
                Next::Ask(action) => {
                    let ghost before = state@;
                    let ghost world = self@;
                    let ghost asking = action@;
                    let reply = self.perform(&form, &mut cursor, action);
                    let ghost told = reply@;
                    let (state2, next2) = update_user_password(state, reply);
                    proof {
                        let step_hash = choose|h: Option<Seq<char>>|
                            hash_ok(before.new_password, h) && (state2@, next2@) == change_next(
                                before,
                                told,
                                offered_matches(told, before.password),
                                h,
                            );
                        if before.phase == ChangePhase::FindingAccount {
                            hashed = step_hash;
                        }
                        lemma_change_advances(
                            w0,
                            asked,
                            hashed,
                            step_hash,
                            world,
                            before,
                            asking,
                        );
                    }
                    state = state2;
                    next = next2;
                },
            }
        }
    }
}

} // verus!
