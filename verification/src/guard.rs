//! The access guard: from a bearer token to one account, and the rule by
//! which an account may change a resource.

use crate::error::ErrorKind;
use crate::model::{User, UserView};
use crate::protocol::{rejected, Action, ActionView, Next, NextView, Reply, ReplyView, Response};
use vstd::prelude::*;
use vstd::string::*;

verus! {

/// Who is asking, as far as authorization looks at it.
#[derive(Clone, Copy, Debug, PartialEq, Eq, Structural)]
pub struct Identity {
    pub id: i64,
    pub is_admin: bool,
}

/// The identity of an account.
pub open spec fn identity_of(user: UserView) -> Identity {
    Identity { id: user.id, is_admin: user.is_admin }
}

/// A resource may be changed by its owner and by an administrator, and by
/// nobody else.
pub open spec fn may_modify(requester: Identity, owner: i64) -> bool {
    requester.id == owner || requester.is_admin
}

/// The first move of every request that carries a token: an empty token
/// names nobody and is not looked up. A token has no other form to check.
pub open spec fn lookup_of(token: Seq<char>) -> NextView {
    if token.len() == 0 {
        rejected(ErrorKind::Unauthorized)
    } else {
        NextView::Ask(ActionView::FindUserByToken { token })
    }
}

/// The account that a token lookup came back with. A lookup that failed
/// found nobody.
pub open spec fn resolved(reply: ReplyView) -> Option<UserView> {
    match reply {
        ReplyView::User(Some(user)) => Some(user),
        _ => None,
    }
}

pub fn lookup(token: String) -> (next: Next)
    ensures
        next@ == lookup_of(token@),
{
    if token.as_str().is_empty() {
        Next::Respond(Response::Rejected(ErrorKind::Unauthorized))
    } else {
        Next::Ask(Action::FindUserByToken { token })
    }
}

/// Turns the answer to a token lookup into the requester, or fails with
/// `Unauthorized` where the token matched no account.
pub fn get_user(reply: Reply) -> (requester: Result<User, ErrorKind>)
    ensures
        match requester {
            Ok(user) => resolved(reply@) == Some(user@),
            Err(kind) => kind == ErrorKind::Unauthorized && resolved(reply@) is None,
        },
{
    match reply {
        Reply::User(Some(user)) => Ok(user),
        _ => Err(ErrorKind::Unauthorized),
    }
}

pub fn identify(user: &User) -> (who: Identity)
    ensures
        who == identity_of(user@),
{
    Identity { id: user.id, is_admin: user.is_admin }
}

/// Applies the ownership rule.
pub fn authorize(requester: Identity, owner: i64) -> (verdict: Result<(), ErrorKind>)
    ensures
        verdict is Ok <==> may_modify(requester, owner),
        verdict is Err ==> verdict == Err::<(), ErrorKind>(ErrorKind::Unauthorized),
{
    if requester.id == owner || requester.is_admin {
        Ok(())
    } else {
        Err(ErrorKind::Unauthorized)
    }
}

} // verus!
