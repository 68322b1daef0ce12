//! The whole service in memory: a metadata store, a blob store and the
//! handlers run against them. It is the reference for what each request
//! does to the two stores, and it can be told to fail at chosen points.

use crate::blobs::{holds, removed, written, BlobStore, Blobs};
use crate::db::{
    check_if_username_or_email_used, create_user, delete_file_by_id, get_existing_file_by_hash,
    get_file_by_id, get_number_of_users, get_user_by_id, get_user_by_token, list_files,
    update_password, update_user_token, window, write_file, Store, StoreView,
};
use crate::model::{File, User, UserLogin};
use crate::protocol::{
    part_views, Action, ActionView, PartHeader, PartHeaderView, Reply, ReplyView,
};
use vstd::prelude::*;
use vstd::string::*;

verus! {

/// Which writes are made to fail.
#[derive(Clone, Copy, Debug, PartialEq, Eq, Structural)]
pub struct Faults {
    pub write_blob: bool,
    pub remove_blob: bool,
    pub insert_file: bool,
    pub delete_file: bool,
}

impl Faults {
    pub open spec fn spec_none() -> Faults {
        Faults { write_blob: false, remove_blob: false, insert_file: false, delete_file: false }
    }

    /// No write fails.
    #[verifier::when_used_as_spec(spec_none)]
    pub fn none() -> (faults: Faults)
        ensures
            faults == Faults::spec_none(),
    {
        Faults { write_blob: false, remove_blob: false, insert_file: false, delete_file: false }
    }
}

/// One part of a multipart body: its head, and its body in the chunks in
/// which it arrives.
#[derive(Debug, PartialEq, Eq)]
pub struct FormPart {
    pub header: PartHeader,
    pub chunks: Vec<Vec<u8>>,
}

pub struct FormPartView {
    pub header: PartHeaderView,
    pub chunks: Seq<Seq<u8>>,
}

/// The bytes of each chunk of a list, in order.
pub open spec fn chunk_views(chunks: Seq<Vec<u8>>) -> Seq<Seq<u8>> {
    chunks.map_values(|c: Vec<u8>| c@)
}

impl View for FormPart {
    type V = FormPartView;

    open spec fn view(&self) -> FormPartView {
        FormPartView { header: self.header@, chunks: chunk_views(self.chunks@) }
    }
}

/// The view of a request body; `None` is a body that cannot be read as a
/// multipart form.
pub open spec fn form_view(form: Option<Vec<FormPart>>) -> Option<Seq<FormPartView>> {
    match form {
        Some(parts) => Some(parts@.map_values(|p: FormPart| p@)),
        None => None,
    }
}

/// The heads of the parts of a form.
pub open spec fn heads(parts: Seq<FormPartView>) -> Seq<PartHeaderView> {
    parts.map_values(|p: FormPartView| p.header)
}

/// The two stores and the failures to inject.
pub struct Service {
    pub store: Store,
    pub blobs: BlobStore,
    pub faults: Faults,
}

pub struct ServiceView {
    pub store: StoreView,
    pub blobs: Blobs,
    pub faults: Faults,
}

impl ServiceView {
    /// What every service holds to that started out empty: rows have
    /// their own ids.
    pub open spec fn wf(self) -> bool {
        self.store.wf()
    }
}

impl View for Service {
    type V = ServiceView;

    open spec fn view(&self) -> ServiceView {
        ServiceView { store: self.store@, blobs: self.blobs@, faults: self.faults }
    }
}

/// What becomes of the service, and of the position in the body being
/// read, when it carries out `action`, and what it answers.
pub open spec fn answer(
    w: ServiceView,
    form: Option<Seq<FormPartView>>,
    cursor: int,
    action: ActionView,
) -> (ServiceView, int, ReplyView) {
    match action {
        ActionView::FindUserByToken { token } => (
            w,
            cursor,
            ReplyView::User(w.store.user_by_token(token)),
        ),
        ActionView::FindUserByName { username } => (
            w,
            cursor,
            ReplyView::User(w.store.user_by_name(username)),
        ),
        ActionView::FindUserById { id } => (w, cursor, ReplyView::User(w.store.user_by_id(id))),
        ActionView::IsIpBanned { ip } => (w, cursor, ReplyView::Flag(w.store.banned(ip))),
        ActionView::ReadParts => match form {
            Some(parts) => (w, cursor, ReplyView::Parts(heads(parts))),
            None => (w, cursor, ReplyView::Failed),
        },
        ActionView::ReadChunk { part } => match form {
            Some(parts) => if part < parts.len() {
                if 0 <= cursor < parts[part as int].chunks.len() {
                    (w, cursor + 1, ReplyView::Chunk(parts[part as int].chunks[cursor]))
                } else {
                    (w, cursor, ReplyView::EndOfBody)
                }
            } else {
                (w, cursor, ReplyView::Failed)
            },
            None => (w, cursor, ReplyView::Failed),
        },
        ActionView::FindFileByHash { hash, user_id } => (
            w,
            cursor,
            ReplyView::File(w.store.file_by_hash(user_id, hash)),
        ),
        ActionView::FindFileById { id } => (w, cursor, ReplyView::File(w.store.file_by_id(id))),
        ActionView::ListFiles { user_id, limit, offset } => if limit < 0 || offset < 0 {
            (w, cursor, ReplyView::Failed)
        } else {
            (
                w,
                cursor,
                ReplyView::Files(window(w.store.files_of(user_id), limit as int, offset as int)),
            )
        },
        ActionView::ReadBlob { name } => if holds(w.blobs, name) {
            (w, cursor, ReplyView::Blob(w.blobs[name]))
        } else {
            (w, cursor, ReplyView::Failed)
        },
        ActionView::WriteBlob { name, content } => if w.faults.write_blob {
            (w, cursor, ReplyView::Failed)
        } else {
            (ServiceView { blobs: written(w.blobs, name, content), ..w }, cursor, ReplyView::Done)
        },
        ActionView::RemoveBlob { name } => if w.faults.remove_blob || !holds(w.blobs, name) {
            (w, cursor, ReplyView::Failed)
        } else {
            (ServiceView { blobs: removed(w.blobs, name), ..w }, cursor, ReplyView::Done)
        },
        ActionView::InsertFile { file } => if w.faults.insert_file || w.store.next_file_id
            == i64::MAX {
            (w, cursor, ReplyView::Failed)
        } else {
            (ServiceView { store: w.store.with_file(file), ..w }, cursor, ReplyView::Done)
        },
        ActionView::DeleteFile { id } => if w.faults.delete_file {
            (w, cursor, ReplyView::Failed)
        } else {
            (ServiceView { store: w.store.without_file(id), ..w }, cursor, ReplyView::Done)
        },
        ActionView::IsLoginTaken { username, email } => (
            w,
            cursor,
            ReplyView::Flag(w.store.login_taken(username, email)),
        ),
        ActionView::CountUsers => if w.store.users.len() <= i64::MAX {
            (w, cursor, ReplyView::Count(w.store.users.len() as i64))
        } else {
            (w, cursor, ReplyView::Failed)
        },
        ActionView::InsertUser { user } => if w.store.next_user_id == i64::MAX {
            (w, cursor, ReplyView::Failed)
        } else {
            (ServiceView { store: w.store.with_user(user), ..w }, cursor, ReplyView::Done)
        },
        ActionView::SetPassword { user_id, hashed } => (
            ServiceView { store: w.store.with_password(user_id, hashed), ..w },
            cursor,
            ReplyView::Done,
        ),
        ActionView::SetToken { user_id, token } => (
            ServiceView { store: w.store.with_token(user_id, token), ..w },
            cursor,
            ReplyView::Done,
        ),
    }
}

fn copy_heads(parts: &Vec<FormPart>) -> (list: Vec<PartHeader>)
    ensures
        part_views(list@) == heads(parts@.map_values(|p: FormPart| p@)),
{
    let mut list: Vec<PartHeader> = Vec::new();
    let mut at: usize = 0;
    while at < parts.len()
        invariant
            at <= parts.len(),
            list.len() == at,
            forall|j: int| 0 <= j < at ==> (#[trigger] list@[j])@ == parts@[j]@.header,
        decreases parts.len() - at,
    {
        let head = &parts[at].header;
        list.push(
            PartHeader {
                name: head.name.clone(),
                content_type: crate::model::clone_opt(&head.content_type),
                filename: crate::model::clone_opt(&head.filename),
            },
        );
        at += 1;
    }
    assert(part_views(list@) =~= heads(parts@.map_values(|p: FormPart| p@)));
    list
}

impl Service {
    /// A service with empty stores in which nothing fails.
    pub fn new() -> (service: Service)
        ensures
            service@.store.users.len() == 0,
            service@.store.files.len() == 0,
            service@.store.banned_ips.len() == 0,
            service@.store.next_user_id == 1,
            service@.store.next_file_id == 1,
            service@.blobs == Map::<Seq<char>, Seq<u8>>::empty(),
            service@.faults == Faults::none(),
            service@.wf(),
    {
        Service { store: Store::new(), blobs: BlobStore::new(), faults: Faults::none() }
    }

    /// Carries out one action of a handler. `form` is the body of the
    /// request being handled and `cursor` the number of chunks already read
    /// of it.
    pub fn perform(&mut self, form: &Option<Vec<FormPart>>, cursor: &mut usize, action: Action) -> (reply:
        Reply)
        ensures
            (final(self)@, *final(cursor) as int, reply@) == answer(
                old(self)@,
                form_view(*form),
                *old(cursor) as int,
                action@,
            ),
            old(self)@.wf() ==> final(self)@.wf(),
    {
        match action {
            Action::FindUserByToken { token } => Reply::User(
                get_user_by_token(&token, &self.store),
            ),
            Action::FindUserByName { username } => {
                let data = UserLogin { username, password: String::new() };
                Reply::User(crate::db::check_user_login(&data, &self.store))
            },
            Action::FindUserById { id } => Reply::User(get_user_by_id(&id, &self.store)),
            Action::IsIpBanned { ip } => match crate::db::is_ip_banned(ip.as_str(), &self.store) {
                Ok(flag) => Reply::Flag(flag),
                Err(_) => Reply::Failed,
            },
            Action::ReadParts => match form {
                Some(parts) => Reply::Parts(copy_heads(parts)),
                None => Reply::Failed,
            },
            Action::ReadChunk { part } => match form {
                Some(parts) => if part < parts.len() {
                    let chunks = &parts[part].chunks;
                    assert(parts@.map_values(|p: FormPart| p@)[part as int] == parts@[part as int]@);
                    if *cursor < chunks.len() {
                        let bytes = chunks[*cursor].clone();
                        assert(chunk_views(chunks@)[*cursor as int] == chunks@[*cursor as int]@);
                        *cursor = *cursor + 1;
                        Reply::Chunk(bytes)
                    } else {
                        Reply::EndOfBody
                    }
                } else {
                    Reply::Failed
                },
                None => Reply::Failed,
            },
            Action::FindFileByHash { hash, user_id } => Reply::File(
                get_existing_file_by_hash(hash.as_str(), &user_id, &self.store),
            ),
            Action::FindFileById { id } => Reply::File(get_file_by_id(&id, &self.store)),
            Action::ListFiles { user_id, limit, offset } => match list_files(
                user_id,
                limit,
                offset,
                &self.store,
            ) {
                Ok(rows) => Reply::Files(rows),
                Err(_) => Reply::Failed,
            },
            Action::ReadBlob { name } => match self.blobs.read(&name) {
                Some(bytes) => Reply::Blob(bytes),
                None => Reply::Failed,
            },
            Action::WriteBlob { name, content } => if self.faults.write_blob {
                Reply::Failed
            } else {
                self.blobs.write(name, content);
                Reply::Done
            },
            Action::RemoveBlob { name } => if self.faults.remove_blob {
                Reply::Failed
            } else if self.blobs.contains(&name) {
                let _ = self.blobs.remove(&name);
                Reply::Done
            } else {
                Reply::Failed
            },
            Action::InsertFile { file } => if self.faults.insert_file {
                Reply::Failed
            } else {
                match write_file(&file, &mut self.store) {
                    Ok(()) => Reply::Done,
                    Err(_) => Reply::Failed,
                }
            },
            Action::DeleteFile { id } => if self.faults.delete_file {
                Reply::Failed
            } else {
                match delete_file_by_id(&id, &mut self.store) {
                    Ok(()) => Reply::Done,
                    Err(_) => Reply::Failed,
                }
            },
            Action::IsLoginTaken { username, email } => match check_if_username_or_email_used(
                &username,
                &email,
                &self.store,
            ) {
                Ok(flag) => Reply::Flag(flag),
                Err(_) => Reply::Failed,
            },
            Action::CountUsers => match get_number_of_users(&self.store) {
                Ok(count) => Reply::Count(count),
                Err(_) => Reply::Failed,
            },
            Action::InsertUser { user } => match create_user(&user, &mut self.store) {
                Ok(()) => Reply::Done,
                Err(_) => Reply::Failed,
            },
            Action::SetPassword { user_id, hashed } => match update_password(
                &user_id,
                &hashed,
                &mut self.store,
            ) {
                Ok(()) => Reply::Done,
                Err(_) => Reply::Failed,
            },
            Action::SetToken { user_id, token } => match update_user_token(
                &user_id,
                &token,
                &mut self.store,
            ) {
                Ok(()) => Reply::Done,
                Err(_) => Reply::Failed,
            },
        }
    }
}

} // verus!
