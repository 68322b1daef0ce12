//! Requests served from the service in memory: each handler is run to its
//! end against the two stores, and what that does is what `outcomes` says.

use crate::blobs::{holds, removed, written};
use crate::config::{ConfigView, ServerConfig};
use crate::files::{
    delete_file, delete_next, get_files, list_next, offset_of,
    start_delete, start_listing, DeletePhase, DeletionView, ListPhase, Listing, PAGE_SIZE,
};
use crate::guard::{identity_of, may_modify};
use crate::model::FileView;
use crate::naming::{fresh_token, is_token};
use crate::outcomes::{
    accepted_part, body_of, delete_outcome, joined, list_outcome, record_of, requester,
    upload_outcome, UploadRequestView,
};
use crate::protocol::{ActionView, Next, NextView, Response};
use crate::seqs::lemma_first_at;
use crate::service::{answer, form_view, heads, FormPart, FormPartView, Service, ServiceView};
use crate::upload::{
    file_part, is_file_part, payload_cap, start_upload_named, upload_file, upload_next,
    upload_start, UploadPhase, UploadView,
};
use vstd::prelude::*;
use vstd::string::*;

verus! {

/// An upload as it arrives: the bearer token, the address it comes from,
/// the time of arrival and the body. A body that cannot be read as a
/// multipart form is `None`.
#[derive(Debug, PartialEq, Eq)]
pub struct UploadRequest {
    pub token: String,
    pub source_ip: String,
    pub received_at: i64,
    pub form: Option<Vec<FormPart>>,
}

impl View for UploadRequest {
    type V = UploadRequestView;

    open spec fn view(&self) -> UploadRequestView {
        UploadRequestView {
            token: self.token@,
            source_ip: self.source_ip@,
            received_at: self.received_at,
            form: form_view(self.form),
        }
    }
}

/// A body grows with every chunk.
pub proof fn lemma_joined_grows(chunks: Seq<Seq<u8>>, upto: int, later: int)
    requires
        0 <= upto <= later,
    ensures
        joined(chunks, upto).len() <= joined(chunks, later).len(),
    decreases later - upto,
{
    if upto < later {
        lemma_joined_grows(chunks, upto, later - 1);
    }
}

/// How far an upload is from its end, counted in phases.
spec fn upload_rank(phase: UploadPhase) -> int {
    match phase {
        UploadPhase::Authenticating => 8,
        UploadPhase::CheckingBan => 7,
        UploadPhase::ReadingParts => 6,
        UploadPhase::ReadingBody => 5,
        UploadPhase::Deduplicating => 4,
        UploadPhase::WritingBlob => 3,
        UploadPhase::InsertingFile => 2,
        UploadPhase::RollingBack => 1,
        UploadPhase::Finished => 0,
    }
}

/// The chunks still to read of the part that an upload reads.
spec fn chunks_left(form: Option<Seq<FormPartView>>, s: UploadView, cursor: int) -> int {
    match form {
        Some(parts) => if s.phase == UploadPhase::ReadingBody && s.part < parts.len() && 0
            <= cursor <= parts[s.part as int].chunks.len() {
            parts[s.part as int].chunks.len() - cursor
        } else {
            0
        },
        None => 0,
    }
}

/// The record of an upload before anything is known of its part.
spec fn blank_record(request: UploadRequestView, name_token: Seq<char>, user_id: i64) -> FileView {
    FileView {
        id: 0,
        original_name: Seq::empty(),
        name: name_token,
        filetype: Seq::empty(),
        file_hash: Seq::empty(),
        file_size: 0,
        uploaded_by: user_id,
        uploaded_by_ip: request.source_ip,
        created_at: request.received_at,
    }
}

/// What holds between the service and an upload under way: the stores are
/// untouched until the blob is written, and the upload carries what the
/// request and the stores determine. Once the upload has its response, the
/// stores and the response are the outcome of the request.
spec fn upload_reached(
    w0: ServiceView,
    cfg: ConfigView,
    request: UploadRequestView,
    name_token: Seq<char>,
    w: ServiceView,
    s: UploadView,
    next: NextView,
    cursor: int,
) -> bool {
    match next {
        NextView::Respond(response) => (w, response) == upload_outcome(
            w0,
            cfg,
            request,
            name_token,
        ),
        NextView::Ask(action) => {
            let user = requester(w0, request.token);
            match s.phase {
                UploadPhase::Authenticating => {
                    &&& request.token.len() > 0
                    &&& w == w0
                    &&& cursor == 0
                    &&& action == ActionView::FindUserByToken { token: request.token }
                    &&& s.record == blank_record(request, name_token, 0)
                    &&& s.content == Seq::<u8>::empty()
                },
                UploadPhase::CheckingBan => {
                    &&& user is Some
                    &&& w == w0
                    &&& cursor == 0
                    &&& action == ActionView::IsIpBanned { ip: request.source_ip }
                    &&& s.record == blank_record(request, name_token, user->0.id)
                    &&& s.content == Seq::<u8>::empty()
                },
                UploadPhase::ReadingParts => {
                    &&& user is Some
                    &&& !w0.store.banned(request.source_ip)
                    &&& w == w0
                    &&& cursor == 0
                    &&& action == ActionView::ReadParts
                    &&& s.record == blank_record(request, name_token, user->0.id)
                    &&& s.content == Seq::<u8>::empty()
                },
                UploadPhase::ReadingBody => {
                    &&& user is Some
                    &&& !w0.store.banned(request.source_ip)
                    &&& accepted_part(request.form) == Some(s.part as int)
                    &&& s.part < request.form->0.len()
                    &&& w == w0
                    &&& action == ActionView::ReadChunk { part: s.part }
                    &&& {
                        let part = request.form->0[s.part as int];
                        &&& 0 <= cursor <= part.chunks.len()
                        &&& s.content == joined(part.chunks, cursor)
                        &&& s.content.len() <= payload_cap(cfg)
                        &&& s.record == FileView {
                            file_hash: Seq::empty(),
                            file_size: s.content.len() as u64,
                            ..record_of(request, name_token, user->0.id, part)
                        }
                    }
                },
                UploadPhase::Deduplicating => {
                    &&& user is Some
                    &&& !w0.store.banned(request.source_ip)
                    &&& accepted_part(request.form) == Some(s.part as int)
                    &&& w == w0
                    &&& {
                        let part = request.form->0[s.part as int];
                        let record = record_of(request, name_token, user->0.id, part);
                        &&& body_of(part.chunks).len() <= payload_cap(cfg)
                        &&& s.content == body_of(part.chunks)
                        &&& s.record == record
                        &&& action == ActionView::FindFileByHash {
                            hash: record.file_hash,
                            user_id: record.uploaded_by,
                        }
                    }
                },
                UploadPhase::WritingBlob => {
                    &&& user is Some
                    &&& !w0.store.banned(request.source_ip)
                    &&& accepted_part(request.form) == Some(s.part as int)
                    &&& w == w0
                    &&& {
                        let part = request.form->0[s.part as int];
                        let record = record_of(request, name_token, user->0.id, part);
                        &&& body_of(part.chunks).len() <= payload_cap(cfg)
                        &&& w0.store.file_by_hash(record.uploaded_by, record.file_hash) is None
                        &&& s.record == record
                        &&& action == ActionView::WriteBlob {
                            name: record.name,
                            content: body_of(part.chunks),
                        }
                    }
                },
                UploadPhase::InsertingFile => {
                    &&& user is Some
                    &&& !w0.store.banned(request.source_ip)
                    &&& accepted_part(request.form) == Some(s.part as int)
                    &&& {
                        let part = request.form->0[s.part as int];
                        let record = record_of(request, name_token, user->0.id, part);
                        &&& body_of(part.chunks).len() <= payload_cap(cfg)
                        &&& w0.store.file_by_hash(record.uploaded_by, record.file_hash) is None
                        &&& !w0.faults.write_blob
                        &&& w == ServiceView {
                            blobs: written(w0.blobs, record.name, body_of(part.chunks)),
                            ..w0
                        }
                        &&& s.record == record
                        &&& action == ActionView::InsertFile { file: record }
                    }
                },
                UploadPhase::RollingBack => {
                    &&& user is Some
                    &&& !w0.store.banned(request.source_ip)
                    &&& accepted_part(request.form) == Some(s.part as int)
                    &&& {
                        let part = request.form->0[s.part as int];
                        let record = record_of(request, name_token, user->0.id, part);
                        &&& body_of(part.chunks).len() <= payload_cap(cfg)
                        &&& w0.store.file_by_hash(record.uploaded_by, record.file_hash) is None
                        &&& !w0.faults.write_blob
                        &&& (w0.faults.insert_file || w0.store.next_file_id == i64::MAX)
                        &&& w == ServiceView {
                            blobs: written(w0.blobs, record.name, body_of(part.chunks)),
                            ..w0
                        }
                        &&& s.record == record
                        &&& action == ActionView::RemoveBlob { name: record.name }
                    }
                },
                UploadPhase::Finished => false,
            }
        },
    }
}

/// An upload starts out as `upload_reached` says.
proof fn lemma_upload_begins(
    w0: ServiceView,
    cfg: ConfigView,
    request: UploadRequestView,
    name_token: Seq<char>,
)
    ensures
        ({
            let (s, next) = upload_start(
                request.token,
                request.source_ip,
                request.received_at,
                name_token,
            );
            upload_reached(w0, cfg, request, name_token, w0, s, next, 0)
        }),
{
}

/// One question answered and one step taken keep `upload_reached`, and
/// bring the upload nearer to its end.
proof fn lemma_upload_advances(
    w0: ServiceView,
    cfg: ConfigView,
    request: UploadRequestView,
    name_token: Seq<char>,
    w: ServiceView,
    s: UploadView,
    action: ActionView,
    cursor: int,
)
    requires
        upload_reached(w0, cfg, request, name_token, w, s, NextView::Ask(action), cursor),
        request.form matches Some(parts) ==> parts.len() <= usize::MAX,
    ensures
        ({
            let (w2, cursor2, reply) = answer(w, request.form, cursor, action);
            let (s2, next2) = upload_next(cfg, s, reply);
            &&& upload_reached(w0, cfg, request, name_token, w2, s2, next2, cursor2)
            &&& upload_rank(s2.phase) < upload_rank(s.phase) || (upload_rank(s2.phase)
                == upload_rank(s.phase) && 0 <= chunks_left(request.form, s2, cursor2)
                < chunks_left(request.form, s, cursor))
        }),
{
    match s.phase {
        UploadPhase::ReadingParts => {
            if request.form is Some {
                let parts = request.form->0;
                lemma_first_at(heads(parts), is_file_part(), 0);
                if file_part(heads(parts)) is Some {
                    let at = file_part(heads(parts))->0;
                    assert(heads(parts)[at] == parts[at].header);
                    assert(joined(parts[at].chunks, 0) == Seq::<u8>::empty());
                }
            }
        },
        UploadPhase::ReadingBody => {
            let part = request.form->0[s.part as int];
            if cursor < part.chunks.len() {
                lemma_joined_grows(part.chunks, cursor + 1, part.chunks.len() as int);
            }
        },
        _ => {},
    }
}

impl Service {
    /// Serves an upload whose stored name starts with `name_token`.
    pub fn upload_named(&mut self, cfg: &ServerConfig, request: UploadRequest, name_token: String) -> (response:
        Response)
        ensures
            (final(self)@, response@) == upload_outcome(old(self)@, cfg@, request@, name_token@),
    {
        let ghost w0 = self@;
        let ghost asked = request@;
        let ghost drawn = name_token@;
        let UploadRequest { token, source_ip, received_at, form } = request;
        let (mut state, mut next) = start_upload_named(token, source_ip, received_at, name_token);
        let mut cursor: usize = 0;
        proof {
            lemma_upload_begins(w0, cfg@, asked, drawn);
            if form is Some {
                assert(form->0.len() == form->0@.len());
            }
        }
        loop
            invariant
                w0 == old(self)@,
                asked == request@,
                drawn == name_token@,
                asked.form == form_view(form),
                asked.form matches Some(parts) ==> parts.len() <= usize::MAX,
                upload_reached(w0, cfg@, asked, drawn, self@, state@, next@, cursor as int),
            decreases
                    (if next is Ask { 1int } else { 0int }),
                    upload_rank(state.phase),
                    chunks_left(asked.form, state@, cursor as int),
        {
            match next {
                Next::Respond(response) => {
                    return response;
                },
                Next::Ask(action) => {
                    proof {
                        lemma_upload_advances(
                            w0,
                            cfg@,
                            asked,
                            drawn,
                            self@,
                            state@,
                            action@,
                            cursor as int,
                        );
                    }
                    let reply = self.perform(&form, &mut cursor, action);
                    let (state2, next2) = upload_file(cfg, state, reply);
                    state = state2;
                    next = next2;
                },
            }
        }
    }

    /// Serves an upload. The random part of the stored name is drawn with
    /// the configured length.
    pub fn upload(&mut self, cfg: &ServerConfig, request: UploadRequest) -> (response: Response)
        ensures
            exists|name_token: Seq<char>|
                is_token(name_token, cfg.file_name_length as nat) && (final(self)@, response@)
                    == upload_outcome(old(self)@, cfg@, request@, name_token),
    {
        let name_token = fresh_token(cfg.file_name_length as usize);
        let ghost drawn = name_token@;
        let response = self.upload_named(cfg, request, name_token);
        assert(is_token(drawn, cfg.file_name_length as nat) && (self@, response@)
            == upload_outcome(old(self)@, cfg@, request@, drawn));
        response
    }
}

/// How far a listing is from its end.
spec fn list_rank(phase: ListPhase) -> int {
    match phase {
        ListPhase::Authenticating => 2,
        ListPhase::Listing => 1,
        ListPhase::Finished => 0,
    }
}

/// What holds between the service and a listing under way.
spec fn list_reached(
    w0: ServiceView,
    token: Seq<char>,
    page: i64,
    w: ServiceView,
    s: Listing,
    next: NextView,
) -> bool {
    &&& w == w0
    &&& s.page == page
    &&& match next {
        NextView::Respond(response) => response == list_outcome(w0, token, page),
        NextView::Ask(action) => match s.phase {
            ListPhase::Authenticating => {
                &&& token.len() > 0
                &&& action == ActionView::FindUserByToken { token }
            },
            ListPhase::Listing => {
                &&& requester(w0, token) is Some
                &&& i64::MIN <= offset_of(page) <= i64::MAX
                &&& action == ActionView::ListFiles {
                    user_id: requester(w0, token)->0.id,
                    limit: PAGE_SIZE,
                    offset: offset_of(page) as i64,
                }
            },
            ListPhase::Finished => false,
        },
    }
}

/// One question answered and one step taken keep `list_reached`, and bring
/// the listing nearer to its end.
proof fn lemma_list_advances(
    w0: ServiceView,
    token: Seq<char>,
    page: i64,
    w: ServiceView,
    s: Listing,
    action: ActionView,
)
    requires
        list_reached(w0, token, page, w, s, NextView::Ask(action)),
    ensures
        ({
            let (w2, cursor2, reply) = answer(w, None, 0, action);
            let (s2, next2) = list_next(s, reply);
            &&& cursor2 == 0
            &&& list_reached(w0, token, page, w2, s2, next2)
            &&& list_rank(s2.phase) < list_rank(s.phase)
        }),
{
}

/// How far a delete is from its end.
spec fn delete_rank(phase: DeletePhase) -> int {
    match phase {
        DeletePhase::Authenticating => 6,
        DeletePhase::FindingFile => 5,
        DeletePhase::ReadingBlob => 4,
        DeletePhase::RemovingBlob => 3,
        DeletePhase::DeletingFile => 2,
        DeletePhase::RestoringBlob => 1,
        DeletePhase::Finished => 0,
    }
}

/// What holds between the service and a delete under way: nothing is
/// touched before the requester is known to own the file or to be an
/// administrator; the record is still there while the blob is; and while
/// the blob is gone the delete holds its bytes.
spec fn delete_reached(
    w0: ServiceView,
    token: Seq<char>,
    file_id: i64,
    w: ServiceView,
    s: DeletionView,
    next: NextView,
) -> bool {
    match next {
        NextView::Respond(response) => (w, response) == delete_outcome(w0, token, file_id),
        NextView::Ask(action) => {
            let user = requester(w0, token);
            let file = w0.store.file_by_id(file_id);
            let allowed = {
                &&& user is Some
                &&& file is Some
                &&& may_modify(identity_of(user->0), file->0.uploaded_by)
                &&& s.name == file->0.name
            };
            let taken = {
                &&& allowed
                &&& !w0.faults.remove_blob
                &&& holds(w0.blobs, file->0.name)
                &&& w == ServiceView { blobs: removed(w0.blobs, file->0.name), ..w0 }
            };
            &&& s.file_id == file_id
            &&& match s.phase {
                DeletePhase::Authenticating => {
                    &&& token.len() > 0
                    &&& w == w0
                    &&& action == ActionView::FindUserByToken { token }
                },
                DeletePhase::FindingFile => {
                    &&& user is Some
                    &&& s.requester == identity_of(user->0)
                    &&& w == w0
                    &&& action == ActionView::FindFileById { id: file_id }
                },
                DeletePhase::ReadingBlob => {
                    &&& allowed
                    &&& w == w0
                    &&& action == ActionView::ReadBlob { name: file->0.name }
                },
                DeletePhase::RemovingBlob => {
                    &&& allowed
                    &&& holds(w0.blobs, file->0.name)
                    &&& s.content == w0.blobs[file->0.name]
                    &&& w == w0
                    &&& action == ActionView::RemoveBlob { name: file->0.name }
                },
                DeletePhase::DeletingFile => {
                    &&& taken
                    &&& s.content == w0.blobs[file->0.name]
                    &&& action == ActionView::DeleteFile { id: file_id }
                },
                DeletePhase::RestoringBlob => {
                    &&& taken
                    &&& w0.faults.delete_file
                    &&& action == ActionView::WriteBlob {
                        name: file->0.name,
                        content: w0.blobs[file->0.name],
                    }
                },
                DeletePhase::Finished => false,
            }
        },
    }
}

/// One question answered and one step taken keep `delete_reached`, and
/// bring the delete nearer to its end.
proof fn lemma_delete_advances(
    w0: ServiceView,
    token: Seq<char>,
    file_id: i64,
    w: ServiceView,
    s: DeletionView,
    action: ActionView,
)
    requires
        delete_reached(w0, token, file_id, w, s, NextView::Ask(action)),
    ensures
        ({
            let (w2, cursor2, reply) = answer(w, None, 0, action);
            let (s2, next2) = delete_next(s, reply);
            &&& cursor2 == 0
            &&& delete_reached(w0, token, file_id, w2, s2, next2)
            &&& delete_rank(s2.phase) < delete_rank(s.phase)
        }),
{
    if s.phase == DeletePhase::RestoringBlob {
        let name = w0.store.file_by_id(file_id)->0.name;
        assert(w0.blobs.remove(name).insert(name, w0.blobs[name]) =~= w0.blobs);
    }
}

impl Service {
    /// Serves one page of the requester's files. The stores stay as they
    /// are.
    pub fn list_files(&mut self, token: String, page: i64) -> (response: Response)
        ensures
            final(self)@ == old(self)@,
            response@ == list_outcome(old(self)@, token@, page),
    {
        let ghost w0 = self@;
        let ghost bearer = token@;
        let (mut state, mut next) = start_listing(token, page);
        let mut cursor: usize = 0;
        let form: Option<Vec<FormPart>> = None;
        loop
            invariant
                w0 == old(self)@,
                bearer == token@,
                cursor == 0,
                form is None,
                list_reached(w0, bearer, page, self@, state, next@),
            decreases (if next is Ask { 1int } else { 0int }), list_rank(state.phase),
        {
            match next {
                Next::Respond(response) => {
                    return response;
                },
                Next::Ask(action) => {
                    proof {
                        lemma_list_advances(w0, bearer, page, self@, state, action@);
                    }
                    let reply = self.perform(&form, &mut cursor, action);
                    let (state2, next2) = get_files(state, reply);
                    state = state2;
                    next = next2;
                },
            }
        }
    }

    /// Serves the delete of a file.
    pub fn delete(&mut self, token: String, file_id: i64) -> (response: Response)
        ensures
            (final(self)@, response@) == delete_outcome(old(self)@, token@, file_id),
    {
        let ghost w0 = self@;
        let ghost bearer = token@;
        let (mut state, mut next) = start_delete(token, file_id);
        let mut cursor: usize = 0;
        let form: Option<Vec<FormPart>> = None;
        loop
            invariant
                w0 == old(self)@,
                bearer == token@,
                cursor == 0,
                form is None,
                delete_reached(w0, bearer, file_id, self@, state@, next@),
            decreases (if next is Ask { 1int } else { 0int }), delete_rank(state.phase),
        {
            match next {
                Next::Respond(response) => {
                    return response;
                },
                Next::Ask(action) => {
                    proof {
                        lemma_delete_advances(w0, bearer, file_id, self@, state@, action@);
                    }
                    let reply = self.perform(&form, &mut cursor, action);
                    let (state2, next2) = delete_file(state, reply);
                    state = state2;
                    next = next2;
                },
            }
        }
    }
}

} // verus!
