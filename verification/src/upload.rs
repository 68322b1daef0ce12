//! The ingestion pipeline: from an authenticated multipart upload to a
//! stored blob with one metadata record, or to a rejection that leaves
//! nothing behind.
//!
//! The gates come in a fixed order: identity, deny list, the `file` part,
//! the size of its body, the lookup of an earlier upload of the same bytes,
//! the blob, the record. The blob is written before its record; if the
//! record cannot be inserted the blob is removed again.

use crate::config::{ConfigView, ServerConfig};
use crate::error::ErrorKind;
use crate::fingerprint::{fingerprint, fingerprint_of};
use crate::guard::{get_user, lookup, lookup_of, resolved};
use crate::model::{clone_opt, File, FileView};
use crate::naming::{
    file_ending, fresh_token, get_file_ending, is_token, public_url, url_of,
};
use crate::protocol::{
    part_views, Action, ActionView, Next, NextView, PartHeader, PartHeaderView, Reply,
    ReplyView, Response, ResponseView,
};
use crate::seqs::first_at;
use bytes::BufMut;
use vstd::prelude::*;
use vstd::string::*;

verus! {

/// Where an upload stands: which answer it is waiting for.
#[derive(Clone, Copy, Debug, PartialEq, Eq, Structural)]
pub enum UploadPhase {
    Authenticating,
    CheckingBan,
    ReadingParts,
    ReadingBody,
    Deduplicating,
    WritingBlob,
    InsertingFile,
    RollingBack,
    Finished,
}

/// An upload in progress. `record` is the metadata record as far as it is
/// known; until the `file` part has been found its `name` is the bare
/// random token. `content` is the body read so far.
#[derive(Debug, PartialEq, Eq)]
pub struct Upload {
    pub phase: UploadPhase,
    pub record: File,
    pub content: Vec<u8>,
    pub part: usize,
}

pub struct UploadView {
    pub phase: UploadPhase,
    pub record: FileView,
    pub content: Seq<u8>,
    pub part: usize,
}

impl View for Upload {
    type V = UploadView;

    open spec fn view(&self) -> UploadView {
        UploadView {
            phase: self.phase,
            record: self.record@,
            content: self.content@,
            part: self.part,
        }
    }
}

/// The most bytes that an upload may hold: the configured maximum, or what
/// a buffer in memory can hold if that is less.
pub open spec fn payload_cap(cfg: ConfigView) -> int {
    if cfg.max_file_size_bytes <= isize::MAX {
        cfg.max_file_size_bytes as int
    } else {
        isize::MAX as int
    }
}

/// Parts whose field name is `file`.
pub open spec fn is_file_part() -> spec_fn(PartHeaderView) -> bool {
    |p: PartHeaderView| p.name == "file"@
}

/// Index of the first part whose field name is `file`.
pub open spec fn file_part(parts: Seq<PartHeaderView>) -> Option<int> {
    first_at(parts, is_file_part(), 0)
}

/// The upload has ended with `response`.
pub open spec fn stop(s: UploadView, response: ResponseView) -> (UploadView, NextView) {
    (UploadView { phase: UploadPhase::Finished, ..s }, NextView::Respond(response))
}

/// The upload has been turned down.
pub open spec fn reject(s: UploadView, kind: ErrorKind) -> (UploadView, NextView) {
    stop(s, ResponseView::Rejected(kind))
}

/// The first state of an upload and its first question. An empty token
/// names nobody and is not looked up.
pub open spec fn upload_start(
    token: Seq<char>,
    source_ip: Seq<char>,
    received_at: i64,
    name_token: Seq<char>,
) -> (UploadView, NextView) {
    let s = UploadView {
        phase: UploadPhase::Authenticating,
        record: FileView {
            id: 0,
            original_name: Seq::empty(),
            name: name_token,
            filetype: Seq::empty(),
            file_hash: Seq::empty(),
            file_size: 0,
            uploaded_by: 0,
            uploaded_by_ip: source_ip,
            created_at: received_at,
        },
        content: Seq::empty(),
        part: 0,
    };
    match lookup_of(token) {
        NextView::Ask(action) => (s, NextView::Ask(action)),
        NextView::Respond(response) => stop(s, response),
    }
}

/// After the token lookup: an unknown token ends the upload.
pub open spec fn after_authenticating(s: UploadView, reply: ReplyView) -> (UploadView, NextView) {
    match resolved(reply) {
        Some(user) => (
            UploadView {
                phase: UploadPhase::CheckingBan,
                record: FileView { uploaded_by: user.id, ..s.record },
                ..s
            },
            NextView::Ask(ActionView::IsIpBanned { ip: s.record.uploaded_by_ip }),
        ),
        None => reject(s, ErrorKind::Unauthorized),
    }
}

/// After the deny-list lookup: a denied address ends the upload.
pub open spec fn after_checking_ban(s: UploadView, reply: ReplyView) -> (UploadView, NextView) {
    match reply {
        ReplyView::Flag(true) => reject(s, ErrorKind::Banned),
        ReplyView::Flag(false) => (
            UploadView { phase: UploadPhase::ReadingParts, ..s },
            NextView::Ask(ActionView::ReadParts),
        ),
        _ => reject(s, ErrorKind::InternalError),
    }
}

/// After the parts have been read: the first part called `file` is the
/// upload, and it must declare a content type and a file name. No later
/// part is tried in its place.
pub open spec fn after_reading_parts(s: UploadView, reply: ReplyView) -> (UploadView, NextView) {
    match reply {
        ReplyView::Parts(parts) => match file_part(parts) {
            Some(at) => match (parts[at].content_type, parts[at].filename) {
                (Some(content_type), Some(filename)) => (
                    UploadView {
                        phase: UploadPhase::ReadingBody,
                        record: FileView {
                            original_name: filename,
                            name: s.record.name + file_ending(filename),
                            filetype: content_type,
                            ..s.record
                        },
                        part: at as usize,
                        ..s
                    },
                    NextView::Ask(ActionView::ReadChunk { part: at as usize }),
                ),
                _ => reject(s, ErrorKind::BadRequest),
            },
            None => reject(s, ErrorKind::BadRequest),
        },
        _ => reject(s, ErrorKind::BadRequest),
    }
}

/// After a read of the body: a chunk is added unless it takes the body over
/// the cap; at the end of the body the fingerprint is taken and an earlier
/// upload of the same bytes by the same user is looked for.
pub open spec fn after_reading_body(cfg: ConfigView, s: UploadView, reply: ReplyView) -> (
    UploadView,
    NextView,
) {
    match reply {
        ReplyView::Chunk(bytes) => if s.content.len() + bytes.len() > payload_cap(cfg) {
            reject(s, ErrorKind::PayloadTooLarge)
        } else {
            (
                UploadView {
                    record: FileView {
                        file_size: (s.content.len() + bytes.len()) as u64,
                        ..s.record
                    },
                    content: s.content + bytes,
                    ..s
                },
                NextView::Ask(ActionView::ReadChunk { part: s.part }),
            )
        },
        ReplyView::EndOfBody => (
            UploadView {
                phase: UploadPhase::Deduplicating,
                record: FileView { file_hash: fingerprint_of(s.content), ..s.record },
                ..s
            },
            NextView::Ask(
                ActionView::FindFileByHash {
                    hash: fingerprint_of(s.content),
                    user_id: s.record.uploaded_by,
                },
            ),
        ),
        _ => reject(s, ErrorKind::InternalError),
    }
}

/// After the lookup of an earlier upload: if there is one its address is
/// the answer and nothing is written; otherwise the blob is written.
pub open spec fn after_deduplicating(cfg: ConfigView, s: UploadView, reply: ReplyView) -> (
    UploadView,
    NextView,
) {
    match reply {
        ReplyView::File(Some(existing)) => stop(
            s,
            ResponseView::Url(url_of(cfg.base_url, existing.name)),
        ),
        _ => (
            UploadView { phase: UploadPhase::WritingBlob, content: Seq::empty(), ..s },
            NextView::Ask(ActionView::WriteBlob { name: s.record.name, content: s.content }),
        ),
    }
}

/// After the blob write: only a written blob gets a record.
pub open spec fn after_writing_blob(s: UploadView, reply: ReplyView) -> (UploadView, NextView) {
    match reply {
        ReplyView::Done => (
            UploadView { phase: UploadPhase::InsertingFile, ..s },
            NextView::Ask(ActionView::InsertFile { file: s.record }),
        ),
        _ => reject(s, ErrorKind::InternalError),
    }
}

/// After the insert of the record: on failure the blob is removed again.
pub open spec fn after_inserting_file(cfg: ConfigView, s: UploadView, reply: ReplyView) -> (
    UploadView,
    NextView,
) {
    match reply {
        ReplyView::Done => stop(s, ResponseView::Url(url_of(cfg.base_url, s.record.name))),
        _ => (
            UploadView { phase: UploadPhase::RollingBack, ..s },
            NextView::Ask(ActionView::RemoveBlob { name: s.record.name }),
        ),
    }
}

/// After the removal of an orphaned blob: if that failed too, the stores
/// disagree.
pub open spec fn after_rolling_back(s: UploadView, reply: ReplyView) -> (UploadView, NextView) {
    match reply {
        ReplyView::Done => reject(s, ErrorKind::InternalError),
        _ => stop(s, ResponseView::Inconsistent(s.record.name)),
    }
}

/// One step of an upload: the state and the question or answer that follow
/// from a state and the environment's reply.
pub open spec fn upload_next(cfg: ConfigView, s: UploadView, reply: ReplyView) -> (
    UploadView,
    NextView,
) {
    match s.phase {
        UploadPhase::Authenticating => after_authenticating(s, reply),
        UploadPhase::CheckingBan => after_checking_ban(s, reply),
        UploadPhase::ReadingParts => after_reading_parts(s, reply),
        UploadPhase::ReadingBody => after_reading_body(cfg, s, reply),
        UploadPhase::Deduplicating => after_deduplicating(cfg, s, reply),
        UploadPhase::WritingBlob => after_writing_blob(s, reply),
        UploadPhase::InsertingFile => after_inserting_file(cfg, s, reply),
        UploadPhase::RollingBack => after_rolling_back(s, reply),
        UploadPhase::Finished => reject(s, ErrorKind::InternalError),
    }
}

/// Appends `chunk` to `buffer` with `BufMut::put` of the `bytes` crate,
/// which for a vector reserves room and copies the whole source to its end.
/// It panics where the vector would outgrow `isize::MAX` bytes.
#[verifier::external_body]
fn put_chunk(buffer: &mut Vec<u8>, chunk: &Vec<u8>)
    requires
        old(buffer)@.len() + chunk@.len() <= isize::MAX,
    ensures
        final(buffer)@ == old(buffer)@ + chunk@,
{
    buffer.put(chunk.as_slice())
}

fn is_file_field(name: &String) -> (yes: bool)
    ensures
        yes == (name@ == "file"@),
{
    let wanted = String::from_str("file");
    *name == wanted
}

/// Finds the part that carries the upload.
pub fn find_file_part(parts: &Vec<PartHeader>) -> (found: Option<usize>)
    ensures
        match found {
            Some(at) => file_part(part_views(parts@)) == Some(at as int) && at < parts.len(),
            None => file_part(part_views(parts@)) is None,
        },
{
    let ghost views = part_views(parts@);
    let mut at: usize = 0;
    while at < parts.len()
        invariant
            at <= parts.len(),
            views == part_views(parts@),
            file_part(views) == first_at(views, is_file_part(), at as int),
        decreases parts.len() - at,
    {
        assert(views[at as int] == parts@[at as int]@);
        if is_file_field(&parts[at].name) {
            return Some(at);
        }
        at += 1;
    }
    None
}

fn stop_with(state: Upload, response: Response) -> (step: (Upload, Next))
    ensures
        (step.0@, step.1@) == stop(state@, response@),
{
    let mut state = state;
    state.phase = UploadPhase::Finished;
    (state, Next::Respond(response))
}

fn reject_with(state: Upload, kind: ErrorKind) -> (step: (Upload, Next))
    ensures
        (step.0@, step.1@) == reject(state@, kind),
{
    stop_with(state, Response::Rejected(kind))
}

/// Begins an upload whose stored name will start with `name_token`.
pub fn start_upload_named(
    token: String,
    source_ip: String,
    received_at: i64,
    name_token: String,
) -> (step: (Upload, Next))
    ensures
        (step.0@, step.1@) == upload_start(token@, source_ip@, received_at, name_token@),
{
    let state = Upload {
        phase: UploadPhase::Authenticating,
        record: File {
            id: 0,
            original_name: String::new(),
            name: name_token,
            filetype: String::new(),
            file_hash: String::new(),
            file_size: 0,
            uploaded_by: 0,
            uploaded_by_ip: source_ip,
            created_at: received_at,
        },
        content: Vec::new(),
        part: 0,
    };
    match lookup(token) {
        Next::Ask(action) => (state, Next::Ask(action)),
        Next::Respond(response) => stop_with(state, response),
    }
}

/// Begins an upload: draws the random token of the stored name, of the
/// configured length, and asks who the requester is.
pub fn start_upload(cfg: &ServerConfig, token: String, source_ip: String, received_at: i64) -> (step:
    (Upload, Next))
    ensures
        exists|name_token: Seq<char>|
            is_token(name_token, cfg.file_name_length as nat) && (step.0@, step.1@) == upload_start(
                token@,
                source_ip@,
                received_at,
                name_token,
            ),
{
    let name_token = fresh_token(cfg.file_name_length as usize);
    start_upload_named(token, source_ip, received_at, name_token)
}

fn step_authenticating(state: Upload, reply: Reply) -> (step: (Upload, Next))
    ensures
        (step.0@, step.1@) == after_authenticating(state@, reply@),
{
    match get_user(reply) {
        Ok(user) => {
            let mut state = state;
            let ip = state.record.uploaded_by_ip.clone();
            state.phase = UploadPhase::CheckingBan;
            state.record.uploaded_by = user.id;
            (state, Next::Ask(Action::IsIpBanned { ip }))
        },
        Err(kind) => reject_with(state, kind),
    }
}

fn step_checking_ban(state: Upload, reply: Reply) -> (step: (Upload, Next))
    ensures
        (step.0@, step.1@) == after_checking_ban(state@, reply@),
{
    match reply {
        Reply::Flag(true) => reject_with(state, ErrorKind::Banned),
        Reply::Flag(false) => {
            let mut state = state;
            state.phase = UploadPhase::ReadingParts;
            (state, Next::Ask(Action::ReadParts))
        },
        _ => reject_with(state, ErrorKind::InternalError),
    }
}

fn step_reading_parts(state: Upload, reply: Reply) -> (step: (Upload, Next))
    ensures
        (step.0@, step.1@) == after_reading_parts(state@, reply@),
{
    match reply {
        Reply::Parts(parts) => {
            match find_file_part(&parts) {
                Some(at) => {
                    assert(part_views(parts@)[at as int] == parts@[at as int]@);
                    let content_type = clone_opt(&parts[at].content_type);
                    let filename = clone_opt(&parts[at].filename);
                    match (content_type, filename) {
                        (Some(content_type), Some(filename)) => {
                            let mut state = state;
                            state.phase = UploadPhase::ReadingBody;
                            state.record.name.append(get_file_ending(filename.as_str()));
                            state.record.original_name = filename;
                            state.record.filetype = content_type;
                            state.part = at;
                            (state, Next::Ask(Action::ReadChunk { part: at }))
                        },
                        _ => reject_with(state, ErrorKind::BadRequest),
                    }
                },
                None => reject_with(state, ErrorKind::BadRequest),
            }
        },
        _ => reject_with(state, ErrorKind::BadRequest),
    }
}

fn step_reading_body(cfg: &ServerConfig, state: Upload, reply: Reply) -> (step: (Upload, Next))
    ensures
        (step.0@, step.1@) == after_reading_body(cfg@, state@, reply@),
{
    match reply {
        Reply::Chunk(bytes) => {
            let fits = match state.content.len().checked_add(bytes.len()) {
                Some(total) => total <= isize::MAX as usize && total as u64
                    <= cfg.max_file_size_bytes,
                None => false,
            };
            if fits {
                let mut state = state;
                put_chunk(&mut state.content, &bytes);
                state.record.file_size = state.content.len() as u64;
                let part = state.part;
                (state, Next::Ask(Action::ReadChunk { part }))
            } else {
                reject_with(state, ErrorKind::PayloadTooLarge)
            }
        },
        Reply::EndOfBody => {
            let mut state = state;
            let hash = fingerprint(&state.content);
            state.phase = UploadPhase::Deduplicating;
            state.record.file_hash = hash.clone();
            let user_id = state.record.uploaded_by;
            (state, Next::Ask(Action::FindFileByHash { hash, user_id }))
        },
        _ => reject_with(state, ErrorKind::InternalError),
    }
}

fn step_deduplicating(cfg: &ServerConfig, state: Upload, reply: Reply) -> (step: (Upload, Next))
    ensures
        (step.0@, step.1@) == after_deduplicating(cfg@, state@, reply@),
{
    match reply {
        Reply::File(Some(existing)) => {
            let url = public_url(cfg.base_url.as_str(), existing.name.as_str());
            stop_with(state, Response::Url(url))
        },
        _ => {
            let Upload { phase: _, record, content, part } = state;
            let name = record.name.clone();
            (
                Upload { phase: UploadPhase::WritingBlob, record, content: Vec::new(), part },
                Next::Ask(Action::WriteBlob { name, content }),
            )
        },
    }
}

fn step_writing_blob(state: Upload, reply: Reply) -> (step: (Upload, Next))
    ensures
        (step.0@, step.1@) == after_writing_blob(state@, reply@),
{
    match reply {
        Reply::Done => {
            let mut state = state;
            state.phase = UploadPhase::InsertingFile;
            let file = state.record.clone();
            (state, Next::Ask(Action::InsertFile { file }))
        },
        _ => reject_with(state, ErrorKind::InternalError),
    }
}

fn step_inserting_file(cfg: &ServerConfig, state: Upload, reply: Reply) -> (step: (Upload, Next))
    ensures
        (step.0@, step.1@) == after_inserting_file(cfg@, state@, reply@),
{
    match reply {
        Reply::Done => {
            let url = public_url(cfg.base_url.as_str(), state.record.name.as_str());
            stop_with(state, Response::Url(url))
        },
        _ => {
            let mut state = state;
            state.phase = UploadPhase::RollingBack;
            let name = state.record.name.clone();
            (state, Next::Ask(Action::RemoveBlob { name }))
        },
    }
}

fn step_rolling_back(state: Upload, reply: Reply) -> (step: (Upload, Next))
    ensures
        (step.0@, step.1@) == after_rolling_back(state@, reply@),
{
    match reply {
        Reply::Done => reject_with(state, ErrorKind::InternalError),
        _ => {
            let name = state.record.name.clone();
            stop_with(state, Response::Inconsistent(name))
        },
    }
}

/// Takes an upload one step further with the environment's reply to its
/// last question.
pub fn upload_file(cfg: &ServerConfig, state: Upload, reply: Reply) -> (step: (Upload, Next))
    ensures
        (step.0@, step.1@) == upload_next(cfg@, state@, reply@),
{
    match state.phase {
        UploadPhase::Authenticating => step_authenticating(state, reply),
        UploadPhase::CheckingBan => step_checking_ban(state, reply),
        UploadPhase::ReadingParts => step_reading_parts(state, reply),
        UploadPhase::ReadingBody => step_reading_body(cfg, state, reply),
        UploadPhase::Deduplicating => step_deduplicating(cfg, state, reply),
        UploadPhase::WritingBlob => step_writing_blob(state, reply),
        UploadPhase::InsertingFile => step_inserting_file(cfg, state, reply),
        UploadPhase::RollingBack => step_rolling_back(state, reply),
        UploadPhase::Finished => reject_with(state, ErrorKind::InternalError),
    }
}

} // verus!
