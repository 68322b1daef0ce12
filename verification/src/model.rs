//! Records of the metadata store and the bodies of account requests.
//!
//! Each record has a view in which its strings are sequences of characters;
//! contracts speak of the views.

use vstd::prelude::*;
use vstd::string::*;

verus! {

/// The characters of an optional string.
pub open spec fn opt_chars(text: Option<String>) -> Option<Seq<char>> {
    match text {
        Some(s) => Some(s@),
        None => None,
    }
}

/// Copies an optional string.
pub fn clone_opt(text: &Option<String>) -> (copy: Option<String>)
    ensures
        opt_chars(copy) == opt_chars(*text),
{
    match text {
        Some(s) => Some(s.clone()),
        None => None,
    }
}

/// An account. Times are seconds since the Unix epoch.
#[derive(Debug, PartialEq, Eq)]
pub struct User {
    pub id: i64,
    pub username: String,
    pub email: Option<String>,
    pub is_admin: bool,
    pub api_key: Option<String>,
    pub last_update: i64,
    pub created_at: i64,
    pub hashed_password: String,
}

pub struct UserView {
    pub id: i64,
    pub username: Seq<char>,
    pub email: Option<Seq<char>>,
    pub is_admin: bool,
    pub api_key: Option<Seq<char>>,
    pub last_update: i64,
    pub created_at: i64,
    pub hashed_password: Seq<char>,
}

impl View for User {
    type V = UserView;

    open spec fn view(&self) -> UserView {
        UserView {
            id: self.id,
            username: self.username@,
            email: opt_chars(self.email),
            is_admin: self.is_admin,
            api_key: opt_chars(self.api_key),
            last_update: self.last_update,
            created_at: self.created_at,
            hashed_password: self.hashed_password@,
        }
    }
}

impl Clone for User {
    fn clone(&self) -> (copy: Self)
        ensures
            copy@ == self@,
    {
        User {
            id: self.id,
            username: self.username.clone(),
            email: clone_opt(&self.email),
            is_admin: self.is_admin,
            api_key: clone_opt(&self.api_key),
            last_update: self.last_update,
            created_at: self.created_at,
            hashed_password: self.hashed_password.clone(),
        }
    }
}

/// The record of one stored upload. `name` is the stored name, the only one
/// under which the blob is kept and published; `file_size` counts bytes.
#[derive(Debug, PartialEq, Eq)]
pub struct File {
    pub id: i64,
    pub original_name: String,
    pub name: String,
    pub filetype: String,
    pub file_hash: String,
    pub file_size: u64,
    pub uploaded_by: i64,
    pub uploaded_by_ip: String,
    pub created_at: i64,
}

pub struct FileView {
    pub id: i64,
    pub original_name: Seq<char>,
    pub name: Seq<char>,
    pub filetype: Seq<char>,
    pub file_hash: Seq<char>,
    pub file_size: u64,
    pub uploaded_by: i64,
    pub uploaded_by_ip: Seq<char>,
    pub created_at: i64,
}

impl View for File {
    type V = FileView;

    open spec fn view(&self) -> FileView {
        FileView {
            id: self.id,
            original_name: self.original_name@,
            name: self.name@,
            filetype: self.filetype@,
            file_hash: self.file_hash@,
            file_size: self.file_size,
            uploaded_by: self.uploaded_by,
            uploaded_by_ip: self.uploaded_by_ip@,
            created_at: self.created_at,
        }
    }
}

impl Clone for File {
    fn clone(&self) -> (copy: Self)
        ensures
            copy@ == self@,
    {
        File {
            id: self.id,
            original_name: self.original_name.clone(),
            name: self.name.clone(),
            filetype: self.filetype.clone(),
            file_hash: self.file_hash.clone(),
            file_size: self.file_size,
            uploaded_by: self.uploaded_by,
            uploaded_by_ip: self.uploaded_by_ip.clone(),
            created_at: self.created_at,
        }
    }
}

/// The views of a list of file records, in order.
pub open spec fn file_views(files: Seq<File>) -> Seq<FileView> {
    files.map_values(|f: File| f@)
}

/// The views of a list of accounts, in order.
pub open spec fn user_views(users: Seq<User>) -> Seq<UserView> {
    users.map_values(|u: User| u@)
}

/// Body of a login request.
#[derive(Debug, PartialEq, Eq)]
pub struct UserLogin {
    pub username: String,
    pub password: String,
}

/// Body of a login request as the login route reads it; it becomes a
/// [`UserLogin`].
#[derive(Debug, PartialEq, Eq)]
pub struct UserLoginData {
    pub username: String,
    pub password: String,
}

impl UserLoginData {
    pub fn into_login(self) -> (login: UserLogin)
        ensures
            login.username@ == self.username@,
            login.password@ == self.password@,
    {
        UserLogin { username: self.username, password: self.password }
    }
}

/// Body of a registration request.
#[derive(Debug, PartialEq, Eq)]
pub struct UserRegister {
    pub username: String,
    pub password: String,
    pub email: Option<String>,
}

/// Body of a password change: the current password and the one to set.
#[derive(Debug, PartialEq, Eq)]
pub struct PasswordUpdate {
    pub password: String,
    pub new_password: String,
}

/// A number of rows.
#[derive(Clone, Copy, Debug, PartialEq, Eq, Structural)]
pub struct Count {
    pub num_count: i64,
}

} // verus!
