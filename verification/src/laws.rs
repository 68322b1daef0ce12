//! What holds of the service whatever it holds and whatever is asked of
//! it. Each law is stated over the outcome of a request, or over one step
//! of a handler.

use crate::accounts::hash_ok;
use crate::blobs::{content_of, holds};
use crate::config::ConfigView;
use crate::db::{
    has_name, lacks_file_id, rehashed, rekeyed, lemma_one_row_less, lemma_rows_stay_in_order, lemma_rows_stay_in_order_without,
    owned_by, same_upload, takes_login, StoreView,
};
use crate::error::ErrorKind;
use crate::files::{delete_next, DeletePhase, DeletionView, PAGE_SIZE};
use crate::guard::{identity_of, may_modify};
use crate::model::{FileView, UserView};
use crate::naming::url_of;
use crate::outcomes::{
    accepted_part, account_of, body_of, change_outcome, delete_outcome, list_outcome,
    login_outcome, record_of, register_outcome, requester, reset_outcome, upload_outcome,
    ChangeView, RegisterView, UploadRequestView,
};
use crate::protocol::{ActionView, Confirmation, NextView, ReplyView, ResponseView};
use crate::seqs::{
    first_at, lemma_first_at, lemma_first_at_push, lemma_fewer_kept, lemma_kept_push,
    lemma_kept_wanted, lemma_none_kept,
};
use crate::service::ServiceView;
use crate::upload::{payload_cap, reject, upload_next, UploadPhase, UploadView};
use vstd::prelude::*;

verus! {

/// The number of records that say that `user_id` uploaded the bytes with
/// the fingerprint `hash`.
pub open spec fn records_of(store: StoreView, user_id: i64, hash: Seq<char>) -> nat {
    store.files.filter(same_upload(user_id, hash)).len()
}

/// Whether `request` gets as far as the stores: its token names an
/// account, its address is not denied, its form has a usable `file` part
/// and the body of that part is within the cap.
pub open spec fn clears_the_gates(w: ServiceView, cfg: ConfigView, request: UploadRequestView) -> bool {
    &&& requester(w, request.token) is Some
    &&& !w.store.banned(request.source_ip)
    &&& accepted_part(request.form) is Some
    &&& body_of(request.form->0[accepted_part(request.form)->0].chunks).len() <= payload_cap(cfg)
}

/// The record that an upload that clears the gates would store.
pub open spec fn intended_record(
    w: ServiceView,
    request: UploadRequestView,
    name_token: Seq<char>,
) -> FileView {
    record_of(
        request,
        name_token,
        requester(w, request.token)->0.id,
        request.form->0[accepted_part(request.form)->0],
    )
}

/// The body of the part that an upload is taken from.
pub open spec fn intended_body(request: UploadRequestView) -> Seq<u8> {
    body_of(request.form->0[accepted_part(request.form)->0].chunks)
}

/// Uploading the same bytes again as the same user gives the same address
/// and changes nothing: where the first upload got an address, a second one
/// by the same user with the same bytes gets that address and leaves both
/// stores as the first left them. If the user had no record of these bytes
/// before, there is exactly one afterwards. The second upload may come
/// under another file name, in other chunks and with another random token.
pub proof fn law_same_bytes_same_address(
    w: ServiceView,
    cfg: ConfigView,
    first: UploadRequestView,
    first_token: Seq<char>,
    second: UploadRequestView,
    second_token: Seq<char>,
)
    requires
        upload_outcome(w, cfg, first, first_token).1 is Url,
        clears_the_gates(w, cfg, second),
        requester(w, second.token)->0.id == requester(w, first.token)->0.id,
        intended_body(second) == intended_body(first),
    ensures
        ({
            let (w1, r1) = upload_outcome(w, cfg, first, first_token);
            let (w2, r2) = upload_outcome(w1, cfg, second, second_token);
            let record = intended_record(w, first, first_token);
            &&& r2 == r1
            &&& w2 == w1
            &&& records_of(w.store, record.uploaded_by, record.file_hash) == 0 ==> records_of(
                w1.store,
                record.uploaded_by,
                record.file_hash,
            ) == 1
            &&& records_of(w.store, record.uploaded_by, record.file_hash) > 0 ==> w1 == w
        }),
{
    let (w1, r1) = upload_outcome(w, cfg, first, first_token);
    let record = intended_record(w, first, first_token);
    let again = intended_record(w1, second, second_token);
    let same = same_upload(record.uploaded_by, record.file_hash);
    lemma_none_kept(w.store.files, same);
    assert(again.uploaded_by == record.uploaded_by);
    assert(again.file_hash == record.file_hash);
    if w.store.file_by_hash(record.uploaded_by, record.file_hash) is None {
        let row = FileView { id: w.store.next_file_id, ..record };
        lemma_first_at_push(w.store.files, same, row, 0);
        lemma_kept_push(w.store.files, same, row);
        assert(same(row));
        assert(w1.store.files == w.store.files.push(row));
        assert(w1.store.file_by_hash(record.uploaded_by, record.file_hash) == Some(row));
    }
}

/// A listing shows the requester's own files and no others.
pub proof fn law_listing_shows_own_files_only(w: ServiceView, token: Seq<char>, page: i64)
    ensures
        match list_outcome(w, token, page) {
            ResponseView::Files(rows) => {
                &&& requester(w, token) is Some
                &&& rows.len() <= PAGE_SIZE
                &&& forall|i: int|
                    0 <= i < rows.len() ==> (#[trigger] rows[i]).uploaded_by == requester(
                        w,
                        token,
                    )->0.id
            },
            ResponseView::Rejected(kind) => kind == ErrorKind::Unauthorized || kind
                == ErrorKind::InternalError,
            _ => false,
        },
{
    if requester(w, token) is Some {
        let owner = requester(w, token)->0.id;
        lemma_kept_wanted(w.store.files, owned_by(owner));
    }
}

/// Nobody deletes another user's file, unless they are an administrator:
/// the request is turned down as unauthorized and nothing changes.
pub proof fn law_delete_needs_ownership(w: ServiceView, token: Seq<char>, file_id: i64)
    requires
        requester(w, token) is Some,
        w.store.file_by_id(file_id) is Some,
        w.store.file_by_id(file_id)->0.uploaded_by != requester(w, token)->0.id,
        !requester(w, token)->0.is_admin,
    ensures
        delete_outcome(w, token, file_id) == (w, ResponseView::Rejected(ErrorKind::Unauthorized)),
{
}

/// The owner and an administrator do delete a file: where no write fails
/// and the blob is there, both the blob and the record are gone
/// afterwards.
pub proof fn law_delete_removes_blob_and_record(w: ServiceView, token: Seq<char>, file_id: i64)
    requires
        requester(w, token) is Some,
        w.store.file_by_id(file_id) is Some,
        may_modify(
            identity_of(requester(w, token)->0),
            w.store.file_by_id(file_id)->0.uploaded_by,
        ),
        holds(w.blobs, w.store.file_by_id(file_id)->0.name),
        !w.faults.remove_blob,
        !w.faults.delete_file,
    ensures
        ({
            let (w1, r1) = delete_outcome(w, token, file_id);
            &&& r1 == ResponseView::Confirmed(Confirmation::FileDeleted)
            &&& !holds(w1.blobs, w.store.file_by_id(file_id)->0.name)
            &&& w1.store.file_by_id(file_id) is None
            &&& w1.store.users == w.store.users
        }),
{
    let kept = w.store.files.filter(crate::db::lacks_file_id(file_id));
    lemma_kept_wanted(w.store.files, crate::db::lacks_file_id(file_id));
    lemma_first_at(kept, crate::db::has_file_id(file_id), 0);
}

/// A delete that fails leaves everything as it was: where the removal of
/// the blob fails, or the record cannot be deleted and the blob can be
/// written back, the delete is turned down and nothing has changed.
pub proof fn law_failed_delete_changes_nothing(w: ServiceView, token: Seq<char>, file_id: i64)
    requires
        w.faults.remove_blob || (w.faults.delete_file && !w.faults.write_blob),
    ensures
        delete_outcome(w, token, file_id).0 == w,
        delete_outcome(w, token, file_id).1 is Rejected,
{
}

/// Blob and record go as a pair: after a delete of a file whose blob was
/// there, the record is still found only if the blob is still held, and
/// the other way round, unless the delete ends as inconsistent. It ends
/// so only where the record could not be deleted and the blob could not
/// be written back either.
pub proof fn law_blob_and_record_go_as_a_pair(w: ServiceView, token: Seq<char>, file_id: i64)
    requires
        w.store.file_by_id(file_id) is Some,
        holds(w.blobs, w.store.file_by_id(file_id)->0.name),
    ensures
        ({
            let (w1, r1) = delete_outcome(w, token, file_id);
            let name = w.store.file_by_id(file_id)->0.name;
            &&& r1 is Inconsistent <==> {
                &&& requester(w, token) is Some
                &&& may_modify(
                    identity_of(requester(w, token)->0),
                    w.store.file_by_id(file_id)->0.uploaded_by,
                )
                &&& !w.faults.remove_blob
                &&& w.faults.delete_file
                &&& w.faults.write_blob
            }
            &&& !(r1 is Inconsistent) ==> (w1.store.file_by_id(file_id) is Some <==> holds(
                w1.blobs,
                name,
            ))
            &&& r1 is Confirmed <==> w1.store.file_by_id(file_id) is None
            &&& r1 is Rejected ==> w1 == w
        }),
{
    let kept = w.store.files.filter(lacks_file_id(file_id));
    lemma_kept_wanted(w.store.files, lacks_file_id(file_id));
    lemma_first_at(kept, crate::db::has_file_id(file_id), 0);
}

/// No upload comes from a denied address: it is turned down and nothing
/// changes, and where the token names an account it is turned down as
/// banned.
pub proof fn law_banned_address_cannot_upload(
    w: ServiceView,
    cfg: ConfigView,
    request: UploadRequestView,
    name_token: Seq<char>,
)
    requires
        w.store.banned(request.source_ip),
    ensures
        upload_outcome(w, cfg, request, name_token).0 == w,
        upload_outcome(w, cfg, request, name_token).1 is Rejected,
        requester(w, request.token) is Some ==> upload_outcome(w, cfg, request, name_token).1
            == ResponseView::Rejected(ErrorKind::Banned),
{
}

/// No upload without an account: an empty or unknown token is turned down
/// as unauthorized and nothing changes.
pub proof fn law_unknown_token_cannot_upload(
    w: ServiceView,
    cfg: ConfigView,
    request: UploadRequestView,
    name_token: Seq<char>,
)
    requires
        requester(w, request.token) is None,
    ensures
        upload_outcome(w, cfg, request, name_token) == (
            w,
            ResponseView::Rejected(ErrorKind::Unauthorized),
        ),
{
}

/// An upload over the configured maximum is turned down as too large and
/// nothing changes.
pub proof fn law_oversized_upload_changes_nothing(
    w: ServiceView,
    cfg: ConfigView,
    request: UploadRequestView,
    name_token: Seq<char>,
)
    requires
        requester(w, request.token) is Some,
        !w.store.banned(request.source_ip),
        accepted_part(request.form) is Some,
        intended_body(request).len() > cfg.max_file_size_bytes,
    ensures
        upload_outcome(w, cfg, request, name_token) == (
            w,
            ResponseView::Rejected(ErrorKind::PayloadTooLarge),
        ),
{
}

/// An upload asks for a blob write at one point only: after the lookup of
/// an earlier upload, with a body within the cap in hand. A chunk that
/// takes the body over the configured maximum ends the upload there and
/// then.
pub proof fn law_blob_write_follows_the_checks(cfg: ConfigView, s: UploadView, reply: ReplyView)
    ensures
        upload_next(cfg, s, reply).1 is Ask && upload_next(cfg, s, reply).1->Ask_0 is WriteBlob
            ==> s.phase == UploadPhase::Deduplicating,
        upload_next(cfg, s, reply).1 is Ask && upload_next(cfg, s, reply).1->Ask_0 is InsertFile
            ==> s.phase == UploadPhase::WritingBlob && reply == ReplyView::Done,
        s.phase == UploadPhase::ReadingBody && reply is Chunk && s.content.len()
            + reply->Chunk_0.len() > cfg.max_file_size_bytes ==> upload_next(cfg, s, reply)
            == reject(s, ErrorKind::PayloadTooLarge),
        s.phase == UploadPhase::ReadingBody && upload_next(cfg, s, reply).0.phase
            == UploadPhase::ReadingBody ==> upload_next(cfg, s, reply).0.content.len()
            <= payload_cap(cfg),
{
}

/// A blob without record does not stay: where the record of a written blob
/// cannot be inserted, the blob is removed again and the upload fails; the
/// metadata store is as before, no blob of that name is left, and if the
/// name was free the blobs are as before. Only where the removal fails too
/// does the blob stay, and then the upload ends as inconsistent.
pub proof fn law_failed_insert_rolls_back(
    w: ServiceView,
    cfg: ConfigView,
    request: UploadRequestView,
    name_token: Seq<char>,
)
    requires
        clears_the_gates(w, cfg, request),
        records_of(
            w.store,
            intended_record(w, request, name_token).uploaded_by,
            intended_record(w, request, name_token).file_hash,
        ) == 0,
        !w.faults.write_blob,
        w.faults.insert_file || w.store.next_file_id == i64::MAX,
    ensures
        ({
            let (w1, r1) = upload_outcome(w, cfg, request, name_token);
            let name = intended_record(w, request, name_token).name;
            &&& w1.store == w.store
            &&& if w.faults.remove_blob {
                &&& r1 == ResponseView::Inconsistent(name)
                &&& holds(w1.blobs, name)
            } else {
                &&& r1 == ResponseView::Rejected(ErrorKind::InternalError)
                &&& !holds(w1.blobs, name)
                &&& !holds(w.blobs, name) ==> w1.blobs == w.blobs
            }
        }),
{
    let record = intended_record(w, request, name_token);
    let body = intended_body(request);
    lemma_none_kept(w.store.files, same_upload(record.uploaded_by, record.file_hash));
    if !holds(w.blobs, record.name) {
        assert(w.blobs.insert(record.name, body).remove(record.name) =~= w.blobs);
    }
}

/// A record never comes without its blob: an upload that got a new
/// address left a blob under the stored name, holding the bytes uploaded,
/// and a record of that name, size and fingerprint.
pub proof fn law_stored_upload_has_blob_and_record(
    w: ServiceView,
    cfg: ConfigView,
    request: UploadRequestView,
    name_token: Seq<char>,
)
    requires
        clears_the_gates(w, cfg, request),
        records_of(
            w.store,
            intended_record(w, request, name_token).uploaded_by,
            intended_record(w, request, name_token).file_hash,
        ) == 0,
        upload_outcome(w, cfg, request, name_token).1 is Url,
    ensures
        ({
            let (w1, r1) = upload_outcome(w, cfg, request, name_token);
            let record = intended_record(w, request, name_token);
            &&& r1 == ResponseView::Url(url_of(cfg.base_url, record.name))
            &&& content_of(w1.blobs, record.name) == Some(intended_body(request))
            &&& w1.store.files == w.store.files.push(
                FileView { id: w.store.next_file_id, ..record },
            )
            &&& record.file_size == intended_body(request).len()
            &&& w1.store.users == w.store.users
        }),
{
    let record = intended_record(w, request, name_token);
    lemma_none_kept(w.store.files, same_upload(record.uploaded_by, record.file_hash));
}

/// The first account of all is the administrator, and no later one is.
pub proof fn law_first_registrant_is_admin(
    w: ServiceView,
    request: RegisterView,
    api_key: Seq<char>,
    hashed: Option<Seq<char>>,
)
    ensures
        match register_outcome(w, request, api_key, hashed).1 {
            ResponseView::Account(account) => account.is_admin == (w.store.users.len() == 0),
            ResponseView::Rejected(kind) => kind == ErrorKind::LoginTaken || kind
                == ErrorKind::InternalError,
            _ => false,
        },
{
}

/// No two accounts under one name: a registration under a name in use is
/// turned down as taken, and nothing changes.
pub proof fn law_taken_name_cannot_register(
    w: ServiceView,
    request: RegisterView,
    api_key: Seq<char>,
    hashed: Option<Seq<char>>,
)
    requires
        w.store.user_by_name(request.username) is Some,
    ensures
        register_outcome(w, request, api_key, hashed) == (
            w,
            ResponseView::Rejected(ErrorKind::LoginTaken),
        ),
{
    let named = has_name(request.username);
    let taking = takes_login(request.username, request.email);
    lemma_first_at(w.store.users, named, 0);
    lemma_first_at(w.store.users, taking, 0);
    let at = first_at(w.store.users, named, 0)->0;
    assert(taking(w.store.users[at]));
}

/// Whoever has registered can log in: after a registration that went
/// through, a login under the same name and password answers with the
/// account, under the id that the store gave it.
pub proof fn law_registered_account_logs_in(
    w: ServiceView,
    request: RegisterView,
    api_key: Seq<char>,
    hashed: Option<Seq<char>>,
)
    requires
        hash_ok(request.password, hashed),
        register_outcome(w, request, api_key, hashed).1 is Account,
    ensures
        ({
            let (w1, r1) = register_outcome(w, request, api_key, hashed);
            login_outcome(w1, request.username, request.password) == ResponseView::Account(
                UserView { id: w.store.next_user_id, ..r1->Account_0 },
            )
        }),
{
    let named = has_name(request.username);
    let taking = takes_login(request.username, request.email);
    let account = account_of(w, request, api_key, hashed->0);
    let row = UserView { id: w.store.next_user_id, ..account };
    lemma_first_at(w.store.users, taking, 0);
    lemma_first_at(w.store.users, named, 0);
    if first_at(w.store.users, named, 0) is Some {
        let at = first_at(w.store.users, named, 0)->0;
        assert(taking(w.store.users[at]));
    }
    lemma_first_at_push(w.store.users, named, row, 0);
    assert(named(row));
}

/// A wrong password opens no account, and neither does an unknown name:
/// both are turned down alike.
pub proof fn law_login_needs_the_password(w: ServiceView, username: Seq<char>, password: Seq<char>)
    ensures
        match login_outcome(w, username, password) {
            ResponseView::Account(account) => {
                &&& w.store.user_by_name(username) == Some(account)
                &&& crate::password::accepts(account.hashed_password, password)
            },
            ResponseView::Rejected(kind) => kind == ErrorKind::Unauthorized,
            _ => false,
        },
{
}

/// Only the account itself and an administrator replace an account's key
/// or password; anyone else is turned down as unauthorized and nothing
/// changes.
pub proof fn law_account_changes_need_ownership(
    w: ServiceView,
    token: Seq<char>,
    user_id: i64,
    api_key: Seq<char>,
    change: ChangeView,
    hashed: Option<Seq<char>>,
)
    requires
        change.token == token,
        change.user_id == user_id,
        requester(w, token) matches Some(user) ==> user.id != user_id && !user.is_admin,
    ensures
        reset_outcome(w, token, user_id, api_key) == (
            w,
            ResponseView::Rejected(ErrorKind::Unauthorized),
        ),
        change_outcome(w, change, hashed) == (w, ResponseView::Rejected(ErrorKind::Unauthorized)),
{
}

/// One step of a delete never asks for the record to go while the blob is
/// still there, and never lets go of the bytes while the record is: the
/// record's delete is asked for only on the news that the blob has been
/// removed, the blob's removal only with its bytes in hand, and a failed
/// delete of the record is followed by the write of those bytes under the
/// same name.
pub proof fn law_record_goes_after_blob(s: DeletionView, reply: ReplyView)
    ensures
        delete_next(s, reply).1 is Ask && delete_next(s, reply).1->Ask_0 is DeleteFile ==> s.phase
            == DeletePhase::RemovingBlob && reply == ReplyView::Done,
        delete_next(s, reply).1 is Ask && delete_next(s, reply).1->Ask_0 is RemoveBlob ==> s.phase
            == DeletePhase::ReadingBlob && reply is Blob && delete_next(s, reply).0.content
            == reply->Blob_0,
        s.phase == DeletePhase::DeletingFile && reply != ReplyView::Done ==> delete_next(
            s,
            reply,
        ).1 == NextView::Ask(ActionView::WriteBlob { name: s.name, content: s.content }),
{
}

/// Requests keep ids apart: in a store in which every row has its own id,
/// lying below the next id to give out, every row still has after any
/// request.
pub proof fn law_ids_stay_apart(
    w: ServiceView,
    cfg: ConfigView,
    upload: UploadRequestView,
    name_token: Seq<char>,
    token: Seq<char>,
    id: i64,
    registration: RegisterView,
    api_key: Seq<char>,
    change: ChangeView,
    hashed: Option<Seq<char>>,
)
    requires
        w.store.wf(),
    ensures
        upload_outcome(w, cfg, upload, name_token).0.store.wf(),
        delete_outcome(w, token, id).0.store.wf(),
        register_outcome(w, registration, api_key, hashed).0.store.wf(),
        reset_outcome(w, token, id, api_key).0.store.wf(),
        change_outcome(w, change, hashed).0.store.wf(),
{
    if clears_the_gates(w, cfg, upload) {
        let record = intended_record(w, upload, name_token);
        lemma_rows_stay_in_order(w.store, arbitrary(), record, id, api_key);
    }
    lemma_rows_stay_in_order_without(w.store, id);
    if hashed is Some {
        let account = account_of(w, registration, api_key, hashed->0);
        lemma_rows_stay_in_order(w.store, account, arbitrary(), id, api_key);
        lemma_rows_stay_in_order(w.store, account, arbitrary(), change.user_id, hashed->0);
    }
    lemma_rows_stay_in_order(w.store, arbitrary(), arbitrary(), id, api_key);
}

/// A delete takes one record away and no more: where ids are apart, a
/// delete that went through leaves one record less, and every record with
/// another id where it was among the others.
pub proof fn law_delete_takes_one_record(w: ServiceView, token: Seq<char>, file_id: i64)
    requires
        w.store.wf(),
        delete_outcome(w, token, file_id).1 == ResponseView::Confirmed(Confirmation::FileDeleted),
    ensures
        ({
            let w1 = delete_outcome(w, token, file_id).0;
            &&& w1.store.files.len() == w.store.files.len() - 1
            &&& w1.store.files == w.store.files.filter(crate::db::lacks_file_id(file_id))
            &&& w1.store.users == w.store.users
            &&& w1.store.banned_ips == w.store.banned_ips
        }),
{
    lemma_one_row_less(w.store.files, file_id);
}

/// At most one record for one user and one content: where no user has two
/// records of the same bytes, none has after an upload or a delete.
pub proof fn law_one_record_per_user_and_content(
    w: ServiceView,
    cfg: ConfigView,
    request: UploadRequestView,
    name_token: Seq<char>,
    token: Seq<char>,
    file_id: i64,
    user_id: i64,
    hash: Seq<char>,
)
    requires
        records_of(w.store, user_id, hash) <= 1,
    ensures
        records_of(upload_outcome(w, cfg, request, name_token).0.store, user_id, hash) <= 1,
        records_of(delete_outcome(w, token, file_id).0.store, user_id, hash) <= 1,
{
    let same = same_upload(user_id, hash);
    if clears_the_gates(w, cfg, request) {
        let record = intended_record(w, request, name_token);
        let row = FileView { id: w.store.next_file_id, ..record };
        lemma_none_kept(w.store.files, same_upload(record.uploaded_by, record.file_hash));
        lemma_kept_push(w.store.files, same, row);
        if same(row) {
            assert(same_upload(record.uploaded_by, record.file_hash) == same);
        }
    }
    lemma_fewer_kept(w.store.files, lacks_file_id(file_id), same);
}

/// Accounts change by account requests only: uploads, listings, deletes
/// and logins leave every account as it was. A token reset changes the key
/// of the account it names and nothing else; a password change changes the
/// password hash of the account it names and nothing else.
pub proof fn law_accounts_change_by_account_requests_only(
    w: ServiceView,
    cfg: ConfigView,
    request: UploadRequestView,
    name_token: Seq<char>,
    token: Seq<char>,
    id: i64,
    api_key: Seq<char>,
    change: ChangeView,
    hashed: Option<Seq<char>>,
)
    ensures
        upload_outcome(w, cfg, request, name_token).0.store.users == w.store.users,
        delete_outcome(w, token, id).0.store.users == w.store.users,
        reset_outcome(w, token, id, api_key).0.store.files == w.store.files,
        change_outcome(w, change, hashed).0.store.files == w.store.files,
        ({
            let users = reset_outcome(w, token, id, api_key).0.store.users;
            &&& users.len() == w.store.users.len()
            &&& forall|i: int|
                0 <= i < users.len() ==> #[trigger] users[i] == w.store.users[i] || (
                w.store.users[i].id == id && users[i] == UserView {
                    api_key: Some(api_key),
                    ..w.store.users[i]
                })
        }),
        ({
            let users = change_outcome(w, change, hashed).0.store.users;
            &&& users.len() == w.store.users.len()
            &&& forall|i: int|
                0 <= i < users.len() ==> #[trigger] users[i] == w.store.users[i] || (
                w.store.users[i].id == change.user_id && hashed is Some && users[i] == UserView {
                    hashed_password: hashed->0,
                    ..w.store.users[i]
                })
        }),
{
    let rekeyed_users = w.store.users.map_values(rekeyed(id, api_key));
    assert forall|i: int| 0 <= i < rekeyed_users.len() implies #[trigger] rekeyed_users[i]
        == rekeyed(id, api_key)(w.store.users[i]) by {}
    if hashed is Some {
        let rehashed_users = w.store.users.map_values(rehashed(change.user_id, hashed->0));
        assert forall|i: int| 0 <= i < rehashed_users.len() implies #[trigger] rehashed_users[i]
            == rehashed(change.user_id, hashed->0)(w.store.users[i]) by {}
    }
}

/// A registration is turned down as taken exactly when an account has its
/// username, or it carries an email and an account has that very email. A
/// registration that is turned down, for this or another reason, changes
/// nothing.
pub proof fn law_registration_is_taken_exactly_when(
    w: ServiceView,
    request: RegisterView,
    api_key: Seq<char>,
    hashed: Option<Seq<char>>,
)
    ensures
        register_outcome(w, request, api_key, hashed).1 == ResponseView::Rejected(
            ErrorKind::LoginTaken,
        ) <==> exists|i: int|
            0 <= i < w.store.users.len() && ((#[trigger] w.store.users[i]).username
                == request.username || (request.email is Some && w.store.users[i].email
                == request.email)),
        register_outcome(w, request, api_key, hashed).1 is Rejected ==> register_outcome(
            w,
            request,
            api_key,
            hashed,
        ).0 == w,
{
    let taking = takes_login(request.username, request.email);
    lemma_first_at(w.store.users, taking, 0);
    if first_at(w.store.users, taking, 0) is Some {
        let at = first_at(w.store.users, taking, 0)->0;
        assert(taking(w.store.users[at]));
    } else {
        assert forall|i: int| 0 <= i < w.store.users.len() implies !((
        #[trigger] w.store.users[i]).username == request.username || (request.email is Some
            && w.store.users[i].email == request.email)) by {
            assert(!taking(w.store.users[i]));
        }
    }
}

/// An absent email collides with nothing: a registration without email
/// under a name that no account has is not turned down as taken, however
/// many accounts without email there are.
pub proof fn law_absent_email_meets_no_email(
    w: ServiceView,
    request: RegisterView,
    api_key: Seq<char>,
    hashed: Option<Seq<char>>,
)
    requires
        request.email is None,
        w.store.user_by_name(request.username) is None,
    ensures
        register_outcome(w, request, api_key, hashed).1 != ResponseView::Rejected(
            ErrorKind::LoginTaken,
        ),
        register_outcome(w, request, api_key, hashed).1 matches ResponseView::Account(account)
            ==> account.email is None,
{
    let named = has_name(request.username);
    let taking = takes_login(request.username, request.email);
    lemma_first_at(w.store.users, named, 0);
    lemma_first_at(w.store.users, taking, 0);
    if first_at(w.store.users, taking, 0) is Some {
        let at = first_at(w.store.users, taking, 0)->0;
        assert(named(w.store.users[at]));
    }
}

/// Requests keep usernames apart: where no two accounts have one name,
/// none have after any request.
pub proof fn law_usernames_stay_apart(
    w: ServiceView,
    cfg: ConfigView,
    upload: UploadRequestView,
    name_token: Seq<char>,
    token: Seq<char>,
    id: i64,
    registration: RegisterView,
    api_key: Seq<char>,
    change: ChangeView,
    hashed: Option<Seq<char>>,
)
    requires
        w.store.names_distinct(),
    ensures
        upload_outcome(w, cfg, upload, name_token).0.store.names_distinct(),
        delete_outcome(w, token, id).0.store.names_distinct(),
        register_outcome(w, registration, api_key, hashed).0.store.names_distinct(),
        reset_outcome(w, token, id, api_key).0.store.names_distinct(),
        change_outcome(w, change, hashed).0.store.names_distinct(),
{
    let taking = takes_login(registration.username, registration.email);
    lemma_first_at(w.store.users, taking, 0);
    let registered = register_outcome(w, registration, api_key, hashed).0.store.users;
    assert forall|i: int, j: int| 0 <= i < j < registered.len() implies (
    #[trigger] registered[i]).username != (#[trigger] registered[j]).username by {
        if registered.len() == w.store.users.len() {
            assert(registered == w.store.users);
        } else {
            assert(registered[i] == w.store.users[i]);
            if j < w.store.users.len() {
                assert(registered[j] == w.store.users[j]);
            } else {
                assert(!taking(w.store.users[i]));
            }
        }
    }
    let rekeyed_users = reset_outcome(w, token, id, api_key).0.store.users;
    assert forall|i: int, j: int| 0 <= i < j < rekeyed_users.len() implies (
    #[trigger] rekeyed_users[i]).username != (#[trigger] rekeyed_users[j]).username by {
        assert(rekeyed_users[i].username == w.store.users[i].username);
        assert(rekeyed_users[j].username == w.store.users[j].username);
    }
    let rehashed_users = change_outcome(w, change, hashed).0.store.users;
    assert forall|i: int, j: int| 0 <= i < j < rehashed_users.len() implies (
    #[trigger] rehashed_users[i]).username != (#[trigger] rehashed_users[j]).username by {
        assert(rehashed_users[i].username == w.store.users[i].username);
        assert(rehashed_users[j].username == w.store.users[j].username);
    }
}

/// Where usernames are apart, a login succeeds exactly when the account
/// of that name accepts the password, and there is at most one such
/// account.
pub proof fn law_login_finds_the_one_account(
    w: ServiceView,
    username: Seq<char>,
    password: Seq<char>,
)
    requires
        w.store.names_distinct(),
    ensures
        login_outcome(w, username, password) is Account <==> exists|i: int|
            0 <= i < w.store.users.len() && (#[trigger] w.store.users[i]).username == username
                && crate::password::accepts(w.store.users[i].hashed_password, password),
{
    let named = has_name(username);
    lemma_first_at(w.store.users, named, 0);
    if first_at(w.store.users, named, 0) is Some {
        let at = first_at(w.store.users, named, 0)->0;
        assert(named(w.store.users[at]));
        assert forall|i: int|
            0 <= i < w.store.users.len() && (#[trigger] w.store.users[i]).username
                == username implies i == at by {
            if i < at {
                assert(!named(w.store.users[i]));
            }
        }
    } else {
        assert forall|i: int| 0 <= i < w.store.users.len() implies (
        #[trigger] w.store.users[i]).username != username by {
            assert(!named(w.store.users[i]));
        }
    }
}

/// An upload ends as inconsistent in one case only: it passed every
/// check, the user had no record of these bytes, the blob was written, the
/// record could not be inserted and the blob could not be removed again.
/// It then reports neither an address nor a rejection.
pub proof fn law_upload_is_inconsistent_exactly_when(
    w: ServiceView,
    cfg: ConfigView,
    request: UploadRequestView,
    name_token: Seq<char>,
)
    ensures
        upload_outcome(w, cfg, request, name_token).1 is Inconsistent <==> {
            &&& clears_the_gates(w, cfg, request)
            &&& records_of(
                w.store,
                intended_record(w, request, name_token).uploaded_by,
                intended_record(w, request, name_token).file_hash,
            ) == 0
            &&& !w.faults.write_blob
            &&& (w.faults.insert_file || w.store.next_file_id == i64::MAX)
            &&& w.faults.remove_blob
        },
        upload_outcome(w, cfg, request, name_token).1 is Inconsistent ==> upload_outcome(
            w,
            cfg,
            request,
            name_token,
        ).1 == ResponseView::Inconsistent(intended_record(w, request, name_token).name),
{
    if clears_the_gates(w, cfg, request) {
        let record = intended_record(w, request, name_token);
        lemma_none_kept(w.store.files, same_upload(record.uploaded_by, record.file_hash));
    }
}

} // verus!
