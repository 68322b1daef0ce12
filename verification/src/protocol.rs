//! What a request handler and its environment say to each other.
//!
//! A handler never touches the metadata store, the blob store or the request
//! stream. It hands out an [`Action`], the environment carries it out and
//! hands back a [`Reply`], until the handler produces a [`Response`].

use crate::error::ErrorKind;
use crate::model::{file_views, opt_chars, File, FileView, User, UserView};
use vstd::prelude::*;
use vstd::string::*;

verus! {

/// The head of one part of a multipart upload.
#[derive(Debug, PartialEq, Eq)]
pub struct PartHeader {
    pub name: String,
    pub content_type: Option<String>,
    pub filename: Option<String>,
}

pub struct PartHeaderView {
    pub name: Seq<char>,
    pub content_type: Option<Seq<char>>,
    pub filename: Option<Seq<char>>,
}

impl View for PartHeader {
    type V = PartHeaderView;

    open spec fn view(&self) -> PartHeaderView {
        PartHeaderView {
            name: self.name@,
            content_type: opt_chars(self.content_type),
            filename: opt_chars(self.filename),
        }
    }
}

/// The views of a list of part heads, in order.
pub open spec fn part_views(parts: Seq<PartHeader>) -> Seq<PartHeaderView> {
    parts.map_values(|p: PartHeader| p@)
}

/// Work that a handler asks of its environment.
#[derive(Debug, PartialEq, Eq)]
pub enum Action {
    /// Look up the account whose API key is `token`.
    FindUserByToken { token: String },
    /// Look up the account called `username`.
    FindUserByName { username: String },
    /// Look up the account with this id.
    FindUserById { id: i64 },
    /// Is `ip` on the deny list?
    IsIpBanned { ip: String },
    /// Read the heads of the parts of the request body.
    ReadParts,
    /// Read the next chunk of the body of the part at this index.
    ReadChunk { part: usize },
    /// Look up a file that `user_id` uploaded with this fingerprint.
    FindFileByHash { hash: String, user_id: i64 },
    /// Look up the file with this id.
    FindFileById { id: i64 },
    /// List files of `user_id`: at most `limit`, after skipping `offset`.
    ListFiles { user_id: i64, limit: i64, offset: i64 },
    /// Read the blob stored under `name`.
    ReadBlob { name: String },
    /// Write `content` to the blob store under `name`.
    WriteBlob { name: String, content: Vec<u8> },
    /// Remove the blob stored under `name`.
    RemoveBlob { name: String },
    /// Insert a file record; the store assigns its id.
    InsertFile { file: File },
    /// Delete the file record with this id.
    DeleteFile { id: i64 },
    /// Is the username, or the email if there is one, already registered?
    IsLoginTaken { username: String, email: Option<String> },
    /// How many accounts are there?
    CountUsers,
    /// Insert an account; the store assigns its id.
    InsertUser { user: User },
    /// Replace the password hash of an account.
    SetPassword { user_id: i64, hashed: String },
    /// Replace the API key of an account.
    SetToken { user_id: i64, token: String },
}

pub enum ActionView {
    FindUserByToken { token: Seq<char> },
    FindUserByName { username: Seq<char> },
    FindUserById { id: i64 },
    IsIpBanned { ip: Seq<char> },
    ReadParts,
    ReadChunk { part: usize },
    FindFileByHash { hash: Seq<char>, user_id: i64 },
    FindFileById { id: i64 },
    ListFiles { user_id: i64, limit: i64, offset: i64 },
    ReadBlob { name: Seq<char> },
    WriteBlob { name: Seq<char>, content: Seq<u8> },
    RemoveBlob { name: Seq<char> },
    InsertFile { file: FileView },
    DeleteFile { id: i64 },
    IsLoginTaken { username: Seq<char>, email: Option<Seq<char>> },
    CountUsers,
    InsertUser { user: UserView },
    SetPassword { user_id: i64, hashed: Seq<char> },
    SetToken { user_id: i64, token: Seq<char> },
}

impl View for Action {
    type V = ActionView;

    open spec fn view(&self) -> ActionView {
        match *self {
            Action::FindUserByToken { token } => ActionView::FindUserByToken { token: token@ },
            Action::FindUserByName { username } => ActionView::FindUserByName {
                username: username@,
            },
            Action::FindUserById { id } => ActionView::FindUserById { id },
            Action::IsIpBanned { ip } => ActionView::IsIpBanned { ip: ip@ },
            Action::ReadParts => ActionView::ReadParts,
            Action::ReadChunk { part } => ActionView::ReadChunk { part },
            Action::FindFileByHash { hash, user_id } => ActionView::FindFileByHash {
                hash: hash@,
                user_id,
            },
            Action::FindFileById { id } => ActionView::FindFileById { id },
            Action::ListFiles { user_id, limit, offset } => ActionView::ListFiles {
                user_id,
                limit,
                offset,
            },
            Action::ReadBlob { name } => ActionView::ReadBlob { name: name@ },
            Action::WriteBlob { name, content } => ActionView::WriteBlob {
                name: name@,
                content: content@,
            },
            Action::RemoveBlob { name } => ActionView::RemoveBlob { name: name@ },
            Action::InsertFile { file } => ActionView::InsertFile { file: file@ },
            Action::DeleteFile { id } => ActionView::DeleteFile { id },
            Action::IsLoginTaken { username, email } => ActionView::IsLoginTaken {
                username: username@,
                email: opt_chars(email),
            },
            Action::CountUsers => ActionView::CountUsers,
            Action::InsertUser { user } => ActionView::InsertUser { user: user@ },
            Action::SetPassword { user_id, hashed } => ActionView::SetPassword {
                user_id,
                hashed: hashed@,
            },
            Action::SetToken { user_id, token } => ActionView::SetToken { user_id, token: token@ },
        }
    }
}

/// What the environment answers.
#[derive(Debug, PartialEq, Eq)]
pub enum Reply {
    /// The account that a lookup found, if any.
    User(Option<User>),
    /// The file record that a lookup found, if any.
    File(Option<File>),
    /// The rows of a listing.
    Files(Vec<File>),
    /// The answer to a yes-or-no question.
    Flag(bool),
    /// The answer to a counting question.
    Count(i64),
    /// The heads of the parts of the request body, in order.
    Parts(Vec<PartHeader>),
    /// The next chunk of a part's body.
    Chunk(Vec<u8>),
    /// The part's body has been read to its end.
    EndOfBody,
    /// The bytes of a blob.
    Blob(Vec<u8>),
    /// The write was carried out.
    Done,
    /// The work could not be done.
    Failed,
}

pub enum ReplyView {
    User(Option<UserView>),
    File(Option<FileView>),
    Files(Seq<FileView>),
    Flag(bool),
    Count(i64),
    Parts(Seq<PartHeaderView>),
    Chunk(Seq<u8>),
    EndOfBody,
    Blob(Seq<u8>),
    Done,
    Failed,
}

impl View for Reply {
    type V = ReplyView;

    open spec fn view(&self) -> ReplyView {
        match *self {
            Reply::User(found) => ReplyView::User(
                match found {
                    Some(u) => Some(u@),
                    None => None,
                },
            ),
            Reply::File(found) => ReplyView::File(
                match found {
                    Some(f) => Some(f@),
                    None => None,
                },
            ),
            Reply::Files(files) => ReplyView::Files(file_views(files@)),
            Reply::Flag(flag) => ReplyView::Flag(flag),
            Reply::Count(count) => ReplyView::Count(count),
            Reply::Parts(parts) => ReplyView::Parts(part_views(parts@)),
            Reply::Chunk(bytes) => ReplyView::Chunk(bytes@),
            Reply::EndOfBody => ReplyView::EndOfBody,
            Reply::Blob(bytes) => ReplyView::Blob(bytes@),
            Reply::Done => ReplyView::Done,
            Reply::Failed => ReplyView::Failed,
        }
    }
}

/// The plain-text confirmations of the service.
#[derive(Clone, Copy, Debug, PartialEq, Eq, Structural)]
pub enum Confirmation {
    FileDeleted,
    TokenReset,
    PasswordUpdated,
}

impl Confirmation {
    pub open spec fn spec_text(self) -> Seq<char> {
        match self {
            Confirmation::FileDeleted => "Successfully deleted file"@,
            Confirmation::TokenReset => "Successfully reset token"@,
            Confirmation::PasswordUpdated => "Successfully updated user"@,
        }
    }

    pub fn text(self) -> (text: &'static str)
        ensures
            text@ == self.spec_text(),
    {
        match self {
            Confirmation::FileDeleted => "Successfully deleted file",
            Confirmation::TokenReset => "Successfully reset token",
            Confirmation::PasswordUpdated => "Successfully updated user",
        }
    }
}

/// How a request ends.
#[derive(Debug, PartialEq, Eq)]
pub enum Response {
    /// The address of a stored upload.
    Url(String),
    /// One page of the requester's files.
    Files(Vec<File>),
    /// The account that was registered or logged in.
    Account(User),
    /// A change was made.
    Confirmed(Confirmation),
    /// The request was turned down.
    Rejected(ErrorKind),
    /// The two stores no longer agree and could not be made to: a blob was
    /// written, its record could not be inserted and the blob could not be
    /// removed again; or a blob was removed, its record could not be
    /// deleted and the blob could not be written back. The process must
    /// not go on serving. Holds the name of the blob.
    Inconsistent(String),
}

pub enum ResponseView {
    Url(Seq<char>),
    Files(Seq<FileView>),
    Account(UserView),
    Confirmed(Confirmation),
    Rejected(ErrorKind),
    Inconsistent(Seq<char>),
}

impl View for Response {
    type V = ResponseView;

    open spec fn view(&self) -> ResponseView {
        match *self {
            Response::Url(url) => ResponseView::Url(url@),
            Response::Files(files) => ResponseView::Files(file_views(files@)),
            Response::Account(user) => ResponseView::Account(user@),
            Response::Confirmed(what) => ResponseView::Confirmed(what),
            Response::Rejected(kind) => ResponseView::Rejected(kind),
            Response::Inconsistent(name) => ResponseView::Inconsistent(name@),
        }
    }
}

/// What a handler wants next: more work from the environment, or to answer
/// the client.
#[derive(Debug, PartialEq, Eq)]
pub enum Next {
    Ask(Action),
    Respond(Response),
}

pub enum NextView {
    Ask(ActionView),
    Respond(ResponseView),
}

impl View for Next {
    type V = NextView;

    open spec fn view(&self) -> NextView {
        match *self {
            Next::Ask(action) => NextView::Ask(action@),
            Next::Respond(response) => NextView::Respond(response@),
        }
    }
}

/// Shorthand for a rejection.
pub open spec fn rejected(kind: ErrorKind) -> NextView {
    NextView::Respond(ResponseView::Rejected(kind))
}

} // verus!
