//! Listing and deleting a user's files.
//!
//! A listing shows the requester's own files, one page at a time. A delete
//! removes the blob first and the record second, and takes the two as a
//! pair: where the record cannot be deleted the blob is put back, for a
//! record without blob is a broken link.

use crate::error::ErrorKind;
use crate::guard::{
    authorize, get_user, identify, identity_of, lookup, lookup_of, may_modify, resolved, Identity,
};
use crate::protocol::{
    Action, ActionView, Confirmation, Next, NextView, Reply, ReplyView, Response,
    ResponseView,
};
use vstd::prelude::*;
use vstd::string::*;

verus! {

/// Rows on one page of a listing.
pub const PAGE_SIZE: i64 = 20;

/// Rows that come before page `page`; pages count from one.
pub open spec fn offset_of(page: i64) -> int {
    (page - 1) * PAGE_SIZE
}

/// The offset of a page, where it can be written in sixty-four bits.
pub fn page_offset(page: i64) -> (offset: Option<i64>)
    ensures
        match offset {
            Some(rows) => rows == offset_of(page),
            None => offset_of(page) < i64::MIN || offset_of(page) > i64::MAX,
        },
{
    match page.checked_sub(1) {
        Some(before) => before.checked_mul(PAGE_SIZE),
        None => None,
    }
}

/// Where a listing stands.
#[derive(Clone, Copy, Debug, PartialEq, Eq, Structural)]
pub enum ListPhase {
    Authenticating,
    Listing,
    Finished,
}

/// A listing in progress.
#[derive(Clone, Copy, Debug, PartialEq, Eq, Structural)]
pub struct Listing {
    pub phase: ListPhase,
    pub page: i64,
}

/// The listing has ended.
pub open spec fn list_stop(s: Listing, response: ResponseView) -> (Listing, NextView) {
    (Listing { phase: ListPhase::Finished, ..s }, NextView::Respond(response))
}

pub open spec fn list_start(token: Seq<char>, page: i64) -> (Listing, NextView) {
    let s = Listing { phase: ListPhase::Authenticating, page };
    match lookup_of(token) {
        NextView::Ask(action) => (s, NextView::Ask(action)),
        NextView::Respond(response) => list_stop(s, response),
    }
}

/// One step of a listing. The store is asked for the requester's rows and
/// for no others; a page is not checked to be positive, and a page whose
/// offset cannot be written is answered as a storage failure.
pub open spec fn list_next(s: Listing, reply: ReplyView) -> (Listing, NextView) {
    match s.phase {
        ListPhase::Authenticating => match resolved(reply) {
            Some(user) => if i64::MIN <= offset_of(s.page) <= i64::MAX {
                (
                    Listing { phase: ListPhase::Listing, ..s },
                    NextView::Ask(
                        ActionView::ListFiles {
                            user_id: user.id,
                            limit: PAGE_SIZE,
                            offset: offset_of(s.page) as i64,
                        },
                    ),
                )
            } else {
                list_stop(s, ResponseView::Rejected(ErrorKind::InternalError))
            },
            None => list_stop(s, ResponseView::Rejected(ErrorKind::Unauthorized)),
        },
        ListPhase::Listing => match reply {
            ReplyView::Files(rows) => list_stop(s, ResponseView::Files(rows)),
            _ => list_stop(s, ResponseView::Rejected(ErrorKind::InternalError)),
        },
        ListPhase::Finished => list_stop(s, ResponseView::Rejected(ErrorKind::InternalError)),
    }
}

fn list_stop_with(state: Listing, response: Response) -> (step: (Listing, Next))
    ensures
        (step.0, step.1@) == list_stop(state, response@),
{
    (Listing { phase: ListPhase::Finished, page: state.page }, Next::Respond(response))
}

/// Begins a listing of page `page` for whoever holds `token`.
pub fn start_listing(token: String, page: i64) -> (step: (Listing, Next))
    ensures
        (step.0, step.1@) == list_start(token@, page),
{
    let state = Listing { phase: ListPhase::Authenticating, page };
    match lookup(token) {
        Next::Ask(action) => (state, Next::Ask(action)),
        Next::Respond(response) => list_stop_with(state, response),
    }
}

/// Takes a listing one step further.
pub fn get_files(state: Listing, reply: Reply) -> (step: (Listing, Next))
    ensures
        (step.0, step.1@) == list_next(state, reply@),
{
    match state.phase {
        ListPhase::Authenticating => match get_user(reply) {
            Ok(user) => match page_offset(state.page) {
                Some(offset) => (
                    Listing { phase: ListPhase::Listing, page: state.page },
                    Next::Ask(Action::ListFiles { user_id: user.id, limit: PAGE_SIZE, offset }),
                ),
                None => list_stop_with(state, Response::Rejected(ErrorKind::InternalError)),
            },
            Err(kind) => list_stop_with(state, Response::Rejected(kind)),
        },
        ListPhase::Listing => match reply {
            Reply::Files(rows) => list_stop_with(state, Response::Files(rows)),
            _ => list_stop_with(state, Response::Rejected(ErrorKind::InternalError)),
        },
        ListPhase::Finished => list_stop_with(state, Response::Rejected(ErrorKind::InternalError)),
    }
}

/// Where a delete stands.
#[derive(Clone, Copy, Debug, PartialEq, Eq, Structural)]
pub enum DeletePhase {
    Authenticating,
    FindingFile,
    ReadingBlob,
    RemovingBlob,
    DeletingFile,
    RestoringBlob,
    Finished,
}

/// A delete in progress: of the file `file_id`, asked for by `requester`
/// once the token has been resolved. `name` is the stored name of the
/// file once it has been found, and `content` the bytes of its blob, kept
/// from before the blob is removed until the record is gone.
#[derive(Debug, PartialEq, Eq)]
pub struct Deletion {
    pub phase: DeletePhase,
    pub file_id: i64,
    pub requester: Identity,
    pub name: String,
    pub content: Vec<u8>,
}

pub struct DeletionView {
    pub phase: DeletePhase,
    pub file_id: i64,
    pub requester: Identity,
    pub name: Seq<char>,
    pub content: Seq<u8>,
}

impl View for Deletion {
    type V = DeletionView;

    open spec fn view(&self) -> DeletionView {
        DeletionView {
            phase: self.phase,
            file_id: self.file_id,
            requester: self.requester,
            name: self.name@,
            content: self.content@,
        }
    }
}

/// The delete has ended.
pub open spec fn delete_stop(s: DeletionView, response: ResponseView) -> (DeletionView, NextView) {
    (DeletionView { phase: DeletePhase::Finished, ..s }, NextView::Respond(response))
}

pub open spec fn delete_start(token: Seq<char>, file_id: i64) -> (DeletionView, NextView) {
    let s = DeletionView {
        phase: DeletePhase::Authenticating,
        file_id,
        requester: Identity { id: 0, is_admin: false },
        name: Seq::empty(),
        content: Seq::empty(),
    };
    match lookup_of(token) {
        NextView::Ask(action) => (s, NextView::Ask(action)),
        NextView::Respond(response) => delete_stop(s, response),
    }
}

/// One step of a delete. A file that cannot be found is reported as such
/// before ownership is looked at. The blob goes first and the record
/// second, and neither stays without the other: the bytes are read before
/// the blob is removed, and written back if the record cannot be deleted.
/// Only where they cannot be written back do the stores disagree.
pub open spec fn delete_next(s: DeletionView, reply: ReplyView) -> (DeletionView, NextView) {
    match s.phase {
        DeletePhase::Authenticating => match resolved(reply) {
            Some(user) => (
                DeletionView {
                    phase: DeletePhase::FindingFile,
                    requester: identity_of(user),
                    ..s
                },
                NextView::Ask(ActionView::FindFileById { id: s.file_id }),
            ),
            None => delete_stop(s, ResponseView::Rejected(ErrorKind::Unauthorized)),
        },
        DeletePhase::FindingFile => match reply {
            ReplyView::File(Some(file)) => if may_modify(s.requester, file.uploaded_by) {
                (
                    DeletionView { phase: DeletePhase::ReadingBlob, name: file.name, ..s },
                    NextView::Ask(ActionView::ReadBlob { name: file.name }),
                )
            } else {
                delete_stop(s, ResponseView::Rejected(ErrorKind::Unauthorized))
            },
            _ => delete_stop(s, ResponseView::Rejected(ErrorKind::NotFound)),
        },
        DeletePhase::ReadingBlob => match reply {
            ReplyView::Blob(bytes) => (
                DeletionView { phase: DeletePhase::RemovingBlob, content: bytes, ..s },
                NextView::Ask(ActionView::RemoveBlob { name: s.name }),
            ),
            _ => delete_stop(s, ResponseView::Rejected(ErrorKind::InternalError)),
        },
        DeletePhase::RemovingBlob => match reply {
            ReplyView::Done => (
                DeletionView { phase: DeletePhase::DeletingFile, ..s },
                NextView::Ask(ActionView::DeleteFile { id: s.file_id }),
            ),
            _ => delete_stop(s, ResponseView::Rejected(ErrorKind::InternalError)),
        },
        DeletePhase::DeletingFile => match reply {
            ReplyView::Done => delete_stop(s, ResponseView::Confirmed(Confirmation::FileDeleted)),
            _ => (
                DeletionView { phase: DeletePhase::RestoringBlob, content: Seq::empty(), ..s },
                NextView::Ask(ActionView::WriteBlob { name: s.name, content: s.content }),
            ),
        },
        DeletePhase::RestoringBlob => match reply {
            ReplyView::Done => delete_stop(s, ResponseView::Rejected(ErrorKind::InternalError)),
            _ => delete_stop(s, ResponseView::Inconsistent(s.name)),
        },
        DeletePhase::Finished => delete_stop(s, ResponseView::Rejected(ErrorKind::InternalError)),
    }
}

fn delete_stop_with(state: Deletion, response: Response) -> (step: (Deletion, Next))
    ensures
        (step.0@, step.1@) == delete_stop(state@, response@),
{
    let mut state = state;
    state.phase = DeletePhase::Finished;
    (state, Next::Respond(response))
}

/// Begins the delete of file `file_id` for whoever holds `token`.
pub fn start_delete(token: String, file_id: i64) -> (step: (Deletion, Next))
    ensures
        (step.0@, step.1@) == delete_start(token@, file_id),
{
    let state = Deletion {
        phase: DeletePhase::Authenticating,
        file_id,
        requester: Identity { id: 0, is_admin: false },
        name: String::new(),
        content: Vec::new(),
    };
    match lookup(token) {
        Next::Ask(action) => (state, Next::Ask(action)),
        Next::Respond(response) => delete_stop_with(state, response),
    }
}

/// Takes a delete one step further.
pub fn delete_file(state: Deletion, reply: Reply) -> (step: (Deletion, Next))
    ensures
        (step.0@, step.1@) == delete_next(state@, reply@),
{
    match state.phase {
        DeletePhase::Authenticating => match get_user(reply) {
            Ok(user) => {
                let mut state = state;
                state.phase = DeletePhase::FindingFile;
                state.requester = identify(&user);
                let id = state.file_id;
                (state, Next::Ask(Action::FindFileById { id }))
            },
            Err(kind) => delete_stop_with(state, Response::Rejected(kind)),
        },
        DeletePhase::FindingFile => match reply {
            Reply::File(Some(file)) => match authorize(state.requester, file.uploaded_by) {
                Ok(()) => {
                    let mut state = state;
                    state.phase = DeletePhase::ReadingBlob;
                    state.name = file.name.clone();
                    (state, Next::Ask(Action::ReadBlob { name: file.name }))
                },
                Err(kind) => delete_stop_with(state, Response::Rejected(kind)),
            },
            _ => delete_stop_with(state, Response::Rejected(ErrorKind::NotFound)),
        },
        DeletePhase::ReadingBlob => match reply {
            Reply::Blob(bytes) => {
                let mut state = state;
                state.phase = DeletePhase::RemovingBlob;
                state.content = bytes;
                let name = state.name.clone();
                (state, Next::Ask(Action::RemoveBlob { name }))
            },
            _ => delete_stop_with(state, Response::Rejected(ErrorKind::InternalError)),
        },
        DeletePhase::RemovingBlob => match reply {
            Reply::Done => {
                let mut state = state;
                state.phase = DeletePhase::DeletingFile;
                let id = state.file_id;
                (state, Next::Ask(Action::DeleteFile { id }))
            },
            _ => delete_stop_with(state, Response::Rejected(ErrorKind::InternalError)),
        },
        DeletePhase::DeletingFile => match reply {
            Reply::Done => delete_stop_with(
                state,
                Response::Confirmed(Confirmation::FileDeleted),
            ),
            _ => {
                let Deletion { phase: _, file_id, requester, name, content } = state;
                let blob = name.clone();
                (
                    Deletion {
                        phase: DeletePhase::RestoringBlob,
                        file_id,
                        requester,
                        name,
                        content: Vec::new(),
                    },
                    Next::Ask(Action::WriteBlob { name: blob, content }),
                )
            },
        },
        DeletePhase::RestoringBlob => match reply {
            Reply::Done => delete_stop_with(state, Response::Rejected(ErrorKind::InternalError)),
            _ => {
                let name = state.name.clone();
                delete_stop_with(state, Response::Inconsistent(name))
            },
        },
        DeletePhase::Finished => delete_stop_with(
            state,
            Response::Rejected(ErrorKind::InternalError),
        ),
    }
}

} // verus!
