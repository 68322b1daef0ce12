//! What each request does to the service as a whole: the stores after it
//! and the response, stated in one piece. The handlers, run against the
//! service in memory, are proved to do exactly this.

use crate::blobs::{holds, removed, written};
use crate::config::ConfigView;
use crate::db::window;
use crate::error::ErrorKind;
use crate::files::{offset_of, PAGE_SIZE};
use crate::fingerprint::fingerprint_of;
use crate::guard::{identity_of, may_modify};
use crate::model::{FileView, UserView};
use crate::naming::{file_ending, url_of};
use crate::password::accepts;
use crate::protocol::{Confirmation, ResponseView};
use crate::service::{heads, FormPartView, ServiceView};
use crate::upload::{file_part, payload_cap};
use vstd::prelude::*;

verus! {

/// A rejection that leaves the service as it was.
pub open spec fn refused(w: ServiceView, kind: ErrorKind) -> (ServiceView, ResponseView) {
    (w, ResponseView::Rejected(kind))
}

/// The account that a token stands for. The empty token stands for none.
pub open spec fn requester(w: ServiceView, token: Seq<char>) -> Option<UserView> {
    if token.len() == 0 {
        None
    } else {
        w.store.user_by_token(token)
    }
}

/// An upload as it arrives.
pub struct UploadRequestView {
    pub token: Seq<char>,
    pub source_ip: Seq<char>,
    pub received_at: i64,
    pub form: Option<Seq<FormPartView>>,
}

/// The first `upto` chunks, one after the other.
pub open spec fn joined(chunks: Seq<Seq<u8>>, upto: int) -> Seq<u8>
    decreases upto,
{
    if upto <= 0 {
        Seq::empty()
    } else {
        joined(chunks, upto - 1) + chunks[upto - 1]
    }
}

/// The whole body of a part.
pub open spec fn body_of(chunks: Seq<Seq<u8>>) -> Seq<u8> {
    joined(chunks, chunks.len() as int)
}

/// The part of a form that is taken for the upload: the first one called
/// `file`, if it declares a content type and a file name.
pub open spec fn accepted_part(form: Option<Seq<FormPartView>>) -> Option<int> {
    match form {
        Some(parts) => match file_part(heads(parts)) {
            Some(at) => if parts[at].header.content_type is Some && parts[at].header.filename
                is Some {
                Some(at)
            } else {
                None
            },
            None => None,
        },
        None => None,
    }
}

/// The record of an upload by `user_id`, before the store gives it an id.
pub open spec fn record_of(
    request: UploadRequestView,
    name_token: Seq<char>,
    user_id: i64,
    part: FormPartView,
) -> FileView {
    FileView {
        id: 0,
        original_name: part.header.filename->0,
        name: name_token + file_ending(part.header.filename->0),
        filetype: part.header.content_type->0,
        file_hash: fingerprint_of(body_of(part.chunks)),
        file_size: body_of(part.chunks).len() as u64,
        uploaded_by: user_id,
        uploaded_by_ip: request.source_ip,
        created_at: request.received_at,
    }
}

/// What becomes of an upload that passed every check: the address of an
/// earlier upload of the same bytes by the same user, with nothing written;
/// or a blob and a record; or, where a write fails, neither, unless the
/// blob cannot be taken back.
pub open spec fn store_upload(w: ServiceView, cfg: ConfigView, record: FileView, body: Seq<u8>) -> (
    ServiceView,
    ResponseView,
) {
    match w.store.file_by_hash(record.uploaded_by, record.file_hash) {
        Some(existing) => (w, ResponseView::Url(url_of(cfg.base_url, existing.name))),
        None => if w.faults.write_blob {
            refused(w, ErrorKind::InternalError)
        } else {
            let blobs = written(w.blobs, record.name, body);
            if w.faults.insert_file || w.store.next_file_id == i64::MAX {
                if w.faults.remove_blob {
                    (ServiceView { blobs, ..w }, ResponseView::Inconsistent(record.name))
                } else {
                    refused(
                        ServiceView { blobs: removed(blobs, record.name), ..w },
                        ErrorKind::InternalError,
                    )
                }
            } else {
                (
                    ServiceView { store: w.store.with_file(record), blobs, ..w },
                    ResponseView::Url(url_of(cfg.base_url, record.name)),
                )
            }
        },
    }
}

/// What an upload does, where `name_token` is the random part of the
/// stored name.
pub open spec fn upload_outcome(
    w: ServiceView,
    cfg: ConfigView,
    request: UploadRequestView,
    name_token: Seq<char>,
) -> (ServiceView, ResponseView) {
    match requester(w, request.token) {
        None => refused(w, ErrorKind::Unauthorized),
        Some(user) => if w.store.banned(request.source_ip) {
            refused(w, ErrorKind::Banned)
        } else {
            match accepted_part(request.form) {
                None => refused(w, ErrorKind::BadRequest),
                Some(at) => {
                    let part = request.form->0[at];
                    if body_of(part.chunks).len() > payload_cap(cfg) {
                        refused(w, ErrorKind::PayloadTooLarge)
                    } else {
                        store_upload(
                            w,
                            cfg,
                            record_of(request, name_token, user.id, part),
                            body_of(part.chunks),
                        )
                    }
                },
            }
        },
    }
}

/// What a listing answers. It changes nothing.
pub open spec fn list_outcome(w: ServiceView, token: Seq<char>, page: i64) -> ResponseView {
    match requester(w, token) {
        None => ResponseView::Rejected(ErrorKind::Unauthorized),
        Some(user) => if 0 <= offset_of(page) <= i64::MAX {
            ResponseView::Files(
                window(w.store.files_of(user.id), PAGE_SIZE as int, offset_of(page)),
            )
        } else {
            ResponseView::Rejected(ErrorKind::InternalError)
        },
    }
}

/// What a delete does: the blob goes first and the record second, and
/// neither goes without the other. Where the blob is missing or cannot be
/// removed nothing changes; where the record cannot be deleted the blob
/// is written back and nothing has changed; only where it cannot be
/// written back is the record left without its blob, and then the delete
/// ends as inconsistent.
pub open spec fn delete_outcome(w: ServiceView, token: Seq<char>, file_id: i64) -> (
    ServiceView,
    ResponseView,
) {
    match requester(w, token) {
        None => refused(w, ErrorKind::Unauthorized),
        Some(user) => match w.store.file_by_id(file_id) {
            None => refused(w, ErrorKind::NotFound),
            Some(file) => if !may_modify(identity_of(user), file.uploaded_by) {
                refused(w, ErrorKind::Unauthorized)
            } else if w.faults.remove_blob || !holds(w.blobs, file.name) {
                refused(w, ErrorKind::InternalError)
            } else if !w.faults.delete_file {
                (
                    ServiceView {
                        store: w.store.without_file(file_id),
                        blobs: removed(w.blobs, file.name),
                        ..w
                    },
                    ResponseView::Confirmed(Confirmation::FileDeleted),
                )
            } else if !w.faults.write_blob {
                refused(w, ErrorKind::InternalError)
            } else {
                (
                    ServiceView { blobs: removed(w.blobs, file.name), ..w },
                    ResponseView::Inconsistent(file.name),
                )
            },
        },
    }
}

/// A registration as it arrives.
pub struct RegisterView {
    pub username: Seq<char>,
    pub password: Seq<char>,
    pub email: Option<Seq<char>>,
    pub received_at: i64,
}

/// The account of a registration, before the store gives it an id.
pub open spec fn account_of(
    w: ServiceView,
    request: RegisterView,
    api_key: Seq<char>,
    hashed: Seq<char>,
) -> UserView {
    UserView {
        id: 0,
        username: request.username,
        email: request.email,
        is_admin: w.store.users.len() == 0,
        api_key: Some(api_key),
        last_update: request.received_at,
        created_at: request.received_at,
        hashed_password: hashed,
    }
}

/// What a registration does, where `api_key` is the key drawn and `hashed`
/// what hashing the password gave.
pub open spec fn register_outcome(
    w: ServiceView,
    request: RegisterView,
    api_key: Seq<char>,
    hashed: Option<Seq<char>>,
) -> (ServiceView, ResponseView) {
    if w.store.login_taken(request.username, request.email) {
        refused(w, ErrorKind::LoginTaken)
    } else {
        match hashed {
            None => refused(w, ErrorKind::InternalError),
            Some(h) => if w.store.users.len() > i64::MAX || w.store.next_user_id == i64::MAX {
                refused(w, ErrorKind::InternalError)
            } else {
                (
                    ServiceView {
                        store: w.store.with_user(account_of(w, request, api_key, h)),
                        ..w
                    },
                    ResponseView::Account(account_of(w, request, api_key, h)),
                )
            },
        }
    }
}

/// What a login answers. It changes nothing.
pub open spec fn login_outcome(w: ServiceView, username: Seq<char>, password: Seq<char>) -> ResponseView {
    match w.store.user_by_name(username) {
        Some(account) => if accepts(account.hashed_password, password) {
            ResponseView::Account(account)
        } else {
            ResponseView::Rejected(ErrorKind::Unauthorized)
        },
        None => ResponseView::Rejected(ErrorKind::Unauthorized),
    }
}

/// What a token reset does, where `api_key` is the key drawn.
pub open spec fn reset_outcome(w: ServiceView, token: Seq<char>, user_id: i64, api_key: Seq<char>) -> (
    ServiceView,
    ResponseView,
) {
    match requester(w, token) {
        None => refused(w, ErrorKind::Unauthorized),
        Some(user) => if may_modify(identity_of(user), user_id) {
            (
                ServiceView { store: w.store.with_token(user_id, api_key), ..w },
                ResponseView::Confirmed(Confirmation::TokenReset),
            )
        } else {
            refused(w, ErrorKind::Unauthorized)
        },
    }
}

/// A password change as it arrives.
pub struct ChangeView {
    pub token: Seq<char>,
    pub user_id: i64,
    pub password: Seq<char>,
    pub new_password: Seq<char>,
}

/// What a password change does, where `hashed` is what hashing the new
/// password gave.
pub open spec fn change_outcome(w: ServiceView, request: ChangeView, hashed: Option<Seq<char>>) -> (
    ServiceView,
    ResponseView,
) {
    match requester(w, request.token) {
        None => refused(w, ErrorKind::Unauthorized),
        Some(user) => if !may_modify(identity_of(user), request.user_id) {
            refused(w, ErrorKind::Unauthorized)
        } else {
            match w.store.user_by_id(request.user_id) {
                None => refused(w, ErrorKind::InternalError),
                Some(account) => if !accepts(account.hashed_password, request.password) {
                    refused(w, ErrorKind::Unauthorized)
                } else {
                    match hashed {
                        None => refused(w, ErrorKind::InternalError),
                        Some(h) => (
                            ServiceView {
                                store: w.store.with_password(request.user_id, h),
                                ..w
                            },
                            ResponseView::Confirmed(Confirmation::PasswordUpdated),
                        ),
                    }
                },
            }
        },
    }
}

} // verus!
