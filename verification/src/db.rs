//! The metadata store: accounts, file records and the deny list, held in
//! memory in the order in which they were inserted.
//!
//! The store is the one place that says what exists and who owns it. Its
//! queries return rows in insertion order, and a lookup that could match
//! several rows returns the first.

use crate::files::{offset_of, page_offset, PAGE_SIZE};
use crate::model::{
    clone_opt, file_views, opt_chars, user_views, Count, File, FileView, User, UserLogin, UserView,
};
use crate::seqs::{any, first, first_at};
use vstd::prelude::*;
use vstd::string::*;

verus! {

/// Why the store turned a request down.
#[derive(Clone, Copy, Debug, PartialEq, Eq, Structural)]
pub enum StoreError {
    /// A limit or an offset is negative.
    OutOfRange,
    /// No id is left to give to a new row.
    Exhausted,
}

/// The accounts, file records and denied addresses of the service.
pub struct Store {
    users: Vec<User>,
    files: Vec<File>,
    banned_ips: Vec<String>,
    next_user_id: i64,
    next_file_id: i64,
}

pub struct StoreView {
    pub users: Seq<UserView>,
    pub files: Seq<FileView>,
    pub banned_ips: Seq<Seq<char>>,
    pub next_user_id: i64,
    pub next_file_id: i64,
}

/// Accounts whose API key is `token`.
pub open spec fn has_token(token: Seq<char>) -> spec_fn(UserView) -> bool {
    |u: UserView| u.api_key == Some(token)
}

/// Accounts called `username`.
pub open spec fn has_name(username: Seq<char>) -> spec_fn(UserView) -> bool {
    |u: UserView| u.username == username
}

/// Accounts with the id `id`.
pub open spec fn has_user_id(id: i64) -> spec_fn(UserView) -> bool {
    |u: UserView| u.id == id
}

/// Accounts that stand in the way of a registration under `username` and,
/// if it gives one, `email`: those of that name and those of that very
/// email. A registration without email meets no email, and an account
/// without email stands in the way of none.
pub open spec fn takes_login(username: Seq<char>, email: Option<Seq<char>>) -> spec_fn(
    UserView,
) -> bool {
    |u: UserView| u.username == username || (email is Some && u.email == email)
}

/// File records with the id `id`.
pub open spec fn has_file_id(id: i64) -> spec_fn(FileView) -> bool {
    |f: FileView| f.id == id
}

/// File records with another id than `id`.
pub open spec fn lacks_file_id(id: i64) -> spec_fn(FileView) -> bool {
    |f: FileView| f.id != id
}

/// File records that `user_id` uploaded.
pub open spec fn owned_by(user_id: i64) -> spec_fn(FileView) -> bool {
    |f: FileView| f.uploaded_by == user_id
}

/// File records that `user_id` uploaded with the fingerprint `hash`.
pub open spec fn same_upload(user_id: i64, hash: Seq<char>) -> spec_fn(FileView) -> bool {
    |f: FileView| f.uploaded_by == user_id && f.file_hash == hash
}

/// Denied addresses equal to `ip`.
pub open spec fn is_address(ip: Seq<char>) -> spec_fn(Seq<char>) -> bool {
    |a: Seq<char>| a == ip
}

/// The account `user` with the API key `token` if its id is `id`.
pub open spec fn rekeyed(id: i64, token: Seq<char>) -> spec_fn(UserView) -> UserView {
    |u: UserView|
        if u.id == id {
            UserView { api_key: Some(token), ..u }
        } else {
            u
        }
}

/// The account `user` with the password hash `hashed` if its id is `id`.
pub open spec fn rehashed(id: i64, hashed: Seq<char>) -> spec_fn(UserView) -> UserView {
    |u: UserView|
        if u.id == id {
            UserView { hashed_password: hashed, ..u }
        } else {
            u
        }
}

/// The rows of `rows` from `offset` on, at most `limit` of them.
pub open spec fn window<T>(rows: Seq<T>, limit: int, offset: int) -> Seq<T>
    recommends
        0 <= limit,
        0 <= offset,
{
    let from = if offset < rows.len() {
        offset
    } else {
        rows.len() as int
    };
    let to = if offset + limit < rows.len() {
        offset + limit
    } else {
        rows.len() as int
    };
    rows.subrange(from, to)
}

impl StoreView {
    pub open spec fn user_by_token(self, token: Seq<char>) -> Option<UserView> {
        first(self.users, has_token(token))
    }

    pub open spec fn user_by_name(self, username: Seq<char>) -> Option<UserView> {
        first(self.users, has_name(username))
    }

    pub open spec fn user_by_id(self, id: i64) -> Option<UserView> {
        first(self.users, has_user_id(id))
    }

    pub open spec fn login_taken(self, username: Seq<char>, email: Option<Seq<char>>) -> bool {
        any(self.users, takes_login(username, email))
    }

    pub open spec fn banned(self, ip: Seq<char>) -> bool {
        any(self.banned_ips, is_address(ip))
    }

    pub open spec fn file_by_id(self, id: i64) -> Option<FileView> {
        first(self.files, has_file_id(id))
    }

    pub open spec fn file_by_hash(self, user_id: i64, hash: Seq<char>) -> Option<FileView> {
        first(self.files, same_upload(user_id, hash))
    }

    /// All the files of `user_id`.
    pub open spec fn files_of(self, user_id: i64) -> Seq<FileView> {
        self.files.filter(owned_by(user_id))
    }

    /// The store after `user` has been inserted under the next free id.
    pub open spec fn with_user(self, user: UserView) -> StoreView {
        StoreView {
            users: self.users.push(UserView { id: self.next_user_id, ..user }),
            next_user_id: (self.next_user_id + 1) as i64,
            ..self
        }
    }

    /// The store after `file` has been inserted under the next free id.
    pub open spec fn with_file(self, file: FileView) -> StoreView {
        StoreView {
            files: self.files.push(FileView { id: self.next_file_id, ..file }),
            next_file_id: (self.next_file_id + 1) as i64,
            ..self
        }
    }

    /// The store without the records whose id is `id`.
    pub open spec fn without_file(self, id: i64) -> StoreView {
        StoreView { files: self.files.filter(lacks_file_id(id)), ..self }
    }

    pub open spec fn with_token(self, id: i64, token: Seq<char>) -> StoreView {
        StoreView { users: self.users.map_values(rekeyed(id, token)), ..self }
    }

    pub open spec fn with_password(self, id: i64, hashed: Seq<char>) -> StoreView {
        StoreView { users: self.users.map_values(rehashed(id, hashed)), ..self }
    }

    pub open spec fn with_ban(self, ip: Seq<char>) -> StoreView {
        StoreView { banned_ips: self.banned_ips.push(ip), ..self }
    }

    /// Every account has its own id, and every id in use lies below the
    /// next one to give out.
    pub open spec fn users_in_order(self) -> bool {
        &&& forall|i: int|
            0 <= i < self.users.len() ==> (#[trigger] self.users[i]).id < self.next_user_id
        &&& forall|i: int, j: int|
            0 <= i < j < self.users.len() ==> (#[trigger] self.users[i]).id != (
            #[trigger] self.users[j]).id
    }

    /// Every file record has its own id, and every id in use lies below
    /// the next one to give out.
    pub open spec fn files_in_order(self) -> bool {
        &&& forall|i: int|
            0 <= i < self.files.len() ==> (#[trigger] self.files[i]).id < self.next_file_id
        &&& forall|i: int, j: int|
            0 <= i < j < self.files.len() ==> (#[trigger] self.files[i]).id != (
            #[trigger] self.files[j]).id
    }

    /// No two accounts have one name. Registration keeps it so; the bare
    /// insert of an account does not look at names.
    pub open spec fn names_distinct(self) -> bool {
        forall|i: int, j: int|
            0 <= i < j < self.users.len() ==> (#[trigger] self.users[i]).username != (
            #[trigger] self.users[j]).username
    }

    /// What every store holds to that started out empty: ids are given out
    /// once.
    pub open spec fn wf(self) -> bool {
        self.users_in_order() && self.files_in_order()
    }
}

/// Inserting and changing rows keeps ids apart.
pub proof fn lemma_rows_stay_in_order(
    store: StoreView,
    user: UserView,
    file: FileView,
    id: i64,
    text: Seq<char>,
)
    requires
        store.wf(),
    ensures
        store.next_user_id < i64::MAX ==> store.with_user(user).wf(),
        store.next_file_id < i64::MAX ==> store.with_file(file).wf(),
        store.with_token(id, text).wf(),
        store.with_password(id, text).wf(),
        store.with_ban(text).wf(),
{
    if store.next_user_id < i64::MAX {
        let after = store.with_user(user);
        assert forall|i: int, j: int| 0 <= i < j < after.users.len() implies (
        #[trigger] after.users[i]).id != (#[trigger] after.users[j]).id by {
            assert(after.users[i] == store.users[i]);
            if j < store.users.len() {
                assert(after.users[j] == store.users[j]);
            }
        }
        assert forall|i: int| 0 <= i < after.users.len() implies (#[trigger] after.users[i]).id
            < after.next_user_id by {
            if i < store.users.len() {
                assert(after.users[i] == store.users[i]);
            }
        }
    }
    if store.next_file_id < i64::MAX {
        let after = store.with_file(file);
        assert forall|i: int, j: int| 0 <= i < j < after.files.len() implies (
        #[trigger] after.files[i]).id != (#[trigger] after.files[j]).id by {
            assert(after.files[i] == store.files[i]);
            if j < store.files.len() {
                assert(after.files[j] == store.files[j]);
            }
        }
        assert forall|i: int| 0 <= i < after.files.len() implies (#[trigger] after.files[i]).id
            < after.next_file_id by {
            if i < store.files.len() {
                assert(after.files[i] == store.files[i]);
            }
        }
    }
    let rekeyed_users = store.with_token(id, text).users;
    assert forall|i: int| 0 <= i < rekeyed_users.len() implies (#[trigger] rekeyed_users[i]).id
        == store.users[i].id by {}
    let rehashed_users = store.with_password(id, text).users;
    assert forall|i: int| 0 <= i < rehashed_users.len() implies (#[trigger] rehashed_users[i]).id
        == store.users[i].id by {}
}

/// Every row that a filter keeps is a row of the list, and rows keep their
/// order: the row kept at `k` stood at `k` or later.
pub proof fn lemma_kept_rows(files: Seq<FileView>, wanted: spec_fn(FileView) -> bool)
    ensures
        forall|k: int|
            0 <= k < files.filter(wanted).len() ==> exists|i: int|
                k <= i < files.len() && files[i] == #[trigger] files.filter(wanted)[k],
    decreases files.len(),
{
    reveal(Seq::filter);
    if files.len() > 0 {
        let front = files.drop_last();
        lemma_kept_rows(front, wanted);
        let kept = files.filter(wanted);
        front.lemma_filter_len(wanted);
        assert forall|k: int| 0 <= k < kept.len() implies exists|i: int|
            k <= i < files.len() && files[i] == #[trigger] kept[k] by {
            if k < front.filter(wanted).len() {
                let i = choose|i: int|
                    k <= i < front.len() && front[i] == front.filter(wanted)[k];
                assert(files[i] == kept[k]);
            } else {
                assert(files[files.len() - 1] == kept[k]);
            }
        }
    }
}

/// Deleting rows keeps ids apart.
pub proof fn lemma_rows_stay_in_order_without(store: StoreView, id: i64)
    requires
        store.wf(),
    ensures
        store.without_file(id).wf(),
    decreases store.files.len(),
{
    reveal(Seq::filter);
    let wanted = lacks_file_id(id);
    let kept = store.files.filter(wanted);
    lemma_kept_rows(store.files, wanted);
    if store.files.len() > 0 {
        let front_store = StoreView { files: store.files.drop_last(), ..store };
        assert forall|i: int| 0 <= i < front_store.files.len() implies (
        #[trigger] front_store.files[i]).id < front_store.next_file_id by {
            assert(front_store.files[i] == store.files[i]);
        }
        assert forall|i: int, j: int| 0 <= i < j < front_store.files.len() implies (
        #[trigger] front_store.files[i]).id != (#[trigger] front_store.files[j]).id by {
            assert(front_store.files[i] == store.files[i]);
            assert(front_store.files[j] == store.files[j]);
        }
        lemma_rows_stay_in_order_without(front_store, id);
        lemma_kept_rows(front_store.files, wanted);
        let front_kept = front_store.files.filter(wanted);
        let last = store.files.last();
        assert forall|i: int, j: int| 0 <= i < j < kept.len() implies (#[trigger] kept[i]).id != (
        #[trigger] kept[j]).id by {
            let shorter = front_store.without_file(id);
            assert(shorter.files == front_kept);
            if j < front_kept.len() {
                assert(kept[i] == shorter.files[i]);
                assert(kept[j] == shorter.files[j]);
            } else {
                assert(kept[j] == last);
                assert(kept[i] == front_kept[i]);
                let at = choose|at: int|
                    i <= at < front_store.files.len() && front_store.files[at] == front_kept[i];
                assert(store.files[at] == kept[i]);
                assert(store.files[store.files.len() - 1] == last);
            }
        }
    }
    assert forall|k: int| 0 <= k < kept.len() implies (#[trigger] kept[k]).id
        < store.next_file_id by {
        let at = choose|at: int| k <= at < store.files.len() && store.files[at] == kept[k];
        assert(store.files[at].id < store.next_file_id);
    }
}

/// Where ids are apart, deleting the record with one id takes exactly one
/// row away if a record has that id, and none otherwise.
pub proof fn lemma_one_row_less(files: Seq<FileView>, id: i64)
    requires
        forall|i: int, j: int|
            0 <= i < j < files.len() ==> (#[trigger] files[i]).id != (#[trigger] files[j]).id,
    ensures
        files.filter(lacks_file_id(id)).len() == if first_at(files, has_file_id(id), 0) is Some {
            files.len() - 1
        } else {
            files.len() as int
        },
    decreases files.len(),
{
    reveal(Seq::filter);
    crate::seqs::lemma_first_at(files, has_file_id(id), 0);
    if files.len() > 0 {
        let front = files.drop_last();
        assert forall|i: int, j: int| 0 <= i < j < front.len() implies (#[trigger] front[i]).id
            != (#[trigger] front[j]).id by {
            assert(front[i] == files[i]);
            assert(front[j] == files[j]);
        }
        lemma_one_row_less(front, id);
        crate::seqs::lemma_first_at(front, has_file_id(id), 0);
        if first_at(front, has_file_id(id), 0) is Some {
            let at = first_at(front, has_file_id(id), 0)->0;
            assert(front[at] == files[at]);
            assert(files[at].id != files[files.len() - 1].id);
        } else {
            assert forall|j: int| 0 <= j < front.len() implies !has_file_id(id)(
                #[trigger] files[j],
            ) by {
                assert(front[j] == files[j]);
            }
        }
    }
}

/// The strings of a list, in order.
pub open spec fn texts(list: Seq<String>) -> Seq<Seq<char>> {
    list.map_values(|s: String| s@)
}

impl View for Store {
    type V = StoreView;

    closed spec fn view(&self) -> StoreView {
        StoreView {
            users: user_views(self.users@),
            files: file_views(self.files@),
            banned_ips: texts(self.banned_ips@),
            next_user_id: self.next_user_id,
            next_file_id: self.next_file_id,
        }
    }
}

impl Store {
    /// An empty store. Ids are given out from one.
    pub fn new() -> (store: Store)
        ensures
            store@.users.len() == 0,
            store@.files.len() == 0,
            store@.banned_ips.len() == 0,
            store@.next_user_id == 1,
            store@.next_file_id == 1,
            store@.wf(),
    {
        Store {
            users: Vec::new(),
            files: Vec::new(),
            banned_ips: Vec::new(),
            next_user_id: 1,
            next_file_id: 1,
        }
    }

    /// Puts an address on the deny list.
    pub fn ban_ip(&mut self, ip: String)
        ensures
            final(self)@ == old(self)@.with_ban(ip@),
            old(self)@.wf() ==> final(self)@.wf(),
    {
        self.banned_ips.push(ip);
        assert(texts(self.banned_ips@) =~= texts(old(self).banned_ips@).push(ip@));
    }
}

fn find_user(users: &Vec<User>, wanted: Ghost<spec_fn(UserView) -> bool>, by: UserKey) -> (found:
    Option<usize>)
    requires
        forall|u: User| #[trigger] by.matches(u) == (wanted@)(u@),
    ensures
        match found {
            Some(at) => first_at(user_views(users@), wanted@, 0) == Some(at as int) && at
                < users.len(),
            None => first_at(user_views(users@), wanted@, 0) is None,
        },
{
    let ghost views = user_views(users@);
    let mut at: usize = 0;
    while at < users.len()
        invariant
            at <= users.len(),
            views == user_views(users@),
            first_at(views, wanted@, 0) == first_at(views, wanted@, at as int),
            forall|u: User| #[trigger] by.matches(u) == (wanted@)(u@),
        decreases users.len() - at,
    {
        assert(views[at as int] == users@[at as int]@);
        if by.test(&users[at]) {
            return Some(at);
        }
        at += 1;
    }
    None
}

/// How an account is looked for.
enum UserKey {
    Token(String),
    Name(String),
    Id(i64),
    Login(String, Option<String>),
}

impl UserKey {
    spec fn matches(self, user: User) -> bool {
        match self {
            UserKey::Token(token) => has_token(token@)(user@),
            UserKey::Name(name) => has_name(name@)(user@),
            UserKey::Id(id) => has_user_id(id)(user@),
            UserKey::Login(name, email) => takes_login(name@, opt_chars(email))(user@),
        }
    }

    fn test(&self, user: &User) -> (yes: bool)
        ensures
            yes == self.matches(*user),
    {
        match self {
            UserKey::Token(token) => match &user.api_key {
                Some(key) => *key == *token,
                None => false,
            },
            UserKey::Name(name) => user.username == *name,
            UserKey::Id(id) => user.id == *id,
            UserKey::Login(name, email) => user.username == *name || match (email, &user.email) {
                (Some(wanted), Some(text)) => *text == *wanted,
                _ => false,
            },
        }
    }
}

/// How a file record is looked for.
enum FileKey {
    Id(i64),
    Upload(i64, String),
}

impl FileKey {
    spec fn matches(self, file: File) -> bool {
        match self {
            FileKey::Id(id) => has_file_id(id)(file@),
            FileKey::Upload(user_id, hash) => same_upload(user_id, hash@)(file@),
        }
    }

    fn test(&self, file: &File) -> (yes: bool)
        ensures
            yes == self.matches(*file),
    {
        match self {
            FileKey::Id(id) => file.id == *id,
            FileKey::Upload(user_id, hash) => file.uploaded_by == *user_id && file.file_hash
                == *hash,
        }
    }
}

fn find_file(files: &Vec<File>, wanted: Ghost<spec_fn(FileView) -> bool>, by: FileKey) -> (found:
    Option<usize>)
    requires
        forall|f: File| #[trigger] by.matches(f) == (wanted@)(f@),
    ensures
        match found {
            Some(at) => first_at(file_views(files@), wanted@, 0) == Some(at as int) && at
                < files.len(),
            None => first_at(file_views(files@), wanted@, 0) is None,
        },
{
    let ghost views = file_views(files@);
    let mut at: usize = 0;
    while at < files.len()
        invariant
            at <= files.len(),
            views == file_views(files@),
            first_at(views, wanted@, 0) == first_at(views, wanted@, at as int),
            forall|f: File| #[trigger] by.matches(f) == (wanted@)(f@),
        decreases files.len() - at,
    {
        assert(views[at as int] == files@[at as int]@);
        if by.test(&files[at]) {
            return Some(at);
        }
        at += 1;
    }
    None
}

fn user_at(store: &Store, found: Option<usize>) -> (user: Option<User>)
    requires
        found matches Some(at) ==> at < store.users.len(),
    ensures
        match (found, user) {
            (Some(at), Some(u)) => u@ == store@.users[at as int],
            (None, None) => true,
            _ => false,
        },
{
    match found {
        Some(at) => {
            assert(user_views(store.users@)[at as int] == store.users@[at as int]@);
            Some(store.users[at].clone())
        },
        None => None,
    }
}

fn file_at(store: &Store, found: Option<usize>) -> (file: Option<File>)
    requires
        found matches Some(at) ==> at < store.files.len(),
    ensures
        match (found, file) {
            (Some(at), Some(f)) => f@ == store@.files[at as int],
            (None, None) => true,
            _ => false,
        },
{
    match found {
        Some(at) => {
            assert(file_views(store.files@)[at as int] == store.files@[at as int]@);
            Some(store.files[at].clone())
        },
        None => None,
    }
}

/// The view of an optional account.
pub open spec fn opt_user(user: Option<User>) -> Option<UserView> {
    match user {
        Some(u) => Some(u@),
        None => None,
    }
}

/// The view of an optional file record.
pub open spec fn opt_file(file: Option<File>) -> Option<FileView> {
    match file {
        Some(f) => Some(f@),
        None => None,
    }
}

/// The account that logs in under the name in `data`.
pub fn check_user_login(data: &UserLogin, store: &Store) -> (user: Option<User>)
    ensures
        opt_user(user) == store@.user_by_name(data.username@),
{
    let found = find_user(
        &store.users,
        Ghost(has_name(data.username@)),
        UserKey::Name(data.username.clone()),
    );
    user_at(store, found)
}

/// The account whose API key is `token`.
pub fn get_user_by_token(token: &String, store: &Store) -> (user: Option<User>)
    ensures
        opt_user(user) == store@.user_by_token(token@),
{
    let found = find_user(&store.users, Ghost(has_token(token@)), UserKey::Token(token.clone()));
    user_at(store, found)
}

/// The account with the id `id`.
pub fn get_user_by_id(id: &i64, store: &Store) -> (user: Option<User>)
    ensures
        opt_user(user) == store@.user_by_id(*id),
{
    let found = find_user(&store.users, Ghost(has_user_id(*id)), UserKey::Id(*id));
    user_at(store, found)
}

/// Whether an account stands in the way of registering `username` with
/// `email`, if there is one.
pub fn check_if_username_or_email_used(
    username: &String,
    email: &Option<String>,
    store: &Store,
) -> (taken: Result<bool, StoreError>)
    ensures
        taken == Ok::<bool, StoreError>(store@.login_taken(username@, opt_chars(*email))),
{
    let found = find_user(
        &store.users,
        Ghost(takes_login(username@, opt_chars(*email))),
        UserKey::Login(username.clone(), clone_opt(email)),
    );
    Ok(found.is_some())
}

/// The number of accounts, where it can be written in sixty-four bits.
pub fn get_number_of_users(store: &Store) -> (count: Result<i64, StoreError>)
    ensures
        match count {
            Ok(n) => n == store@.users.len(),
            Err(e) => e == StoreError::OutOfRange && store@.users.len() > i64::MAX,
        },
{
    let n = store.users.len();
    if n as u64 <= i64::MAX as u64 {
        Ok(n as i64)
    } else {
        Err(StoreError::OutOfRange)
    }
}

/// Whether `ip` is on the deny list.
pub fn is_ip_banned(ip: &str, store: &Store) -> (banned: Result<bool, StoreError>)
    ensures
        banned == Ok::<bool, StoreError>(store@.banned(ip@)),
{
    let wanted = String::from_str(ip);
    let ghost views = texts(store.banned_ips@);
    let mut at: usize = 0;
    while at < store.banned_ips.len()
        invariant
            at <= store.banned_ips.len(),
            views == texts(store.banned_ips@),
            wanted@ == ip@,
            first_at(views, is_address(ip@), 0) == first_at(views, is_address(ip@), at as int),
        decreases store.banned_ips.len() - at,
    {
        assert(views[at as int] == store.banned_ips@[at as int]@);
        if store.banned_ips[at] == wanted {
            return Ok(true);
        }
        at += 1;
    }
    Ok(false)
}

/// The first file that `user_id` uploaded with the fingerprint `hash`.
pub fn get_existing_file_by_hash(hash: &str, user_id: &i64, store: &Store) -> (file: Option<File>)
    ensures
        opt_file(file) == store@.file_by_hash(*user_id, hash@),
{
    let found = find_file(
        &store.files,
        Ghost(same_upload(*user_id, hash@)),
        FileKey::Upload(*user_id, String::from_str(hash)),
    );
    file_at(store, found)
}

/// The file record with the id `id`.
pub fn get_file_by_id(id: &i64, store: &Store) -> (file: Option<File>)
    ensures
        opt_file(file) == store@.file_by_id(*id),
{
    let found = find_file(&store.files, Ghost(has_file_id(*id)), FileKey::Id(*id));
    file_at(store, found)
}

/// Inserts `user` under the next free id; the id it carries is not used.
pub fn create_user(user: &User, store: &mut Store) -> (done: Result<(), StoreError>)
    ensures
        match done {
            Ok(()) => old(store)@.next_user_id < i64::MAX && final(store)@ == old(store)@.with_user(user@),
            Err(e) => e == StoreError::Exhausted && old(store)@.next_user_id == i64::MAX && final(store)@ == old(store)@,
        },
        old(store)@.wf() ==> final(store)@.wf(),
{
    if store.next_user_id == i64::MAX {
        return Err(StoreError::Exhausted);
    }
    proof {
        if store@.wf() {
            lemma_rows_stay_in_order(store@, user@, arbitrary(), 0, Seq::empty());
        }
    }
    let mut row = user.clone();
    row.id = store.next_user_id;
    store.users.push(row);
    store.next_user_id = store.next_user_id + 1;
    assert(user_views(store.users@) =~= user_views(old(store).users@).push(
        UserView { id: old(store).next_user_id, ..user@ },
    ));
    Ok(())
}

/// Gives every account with the id `user_id` the API key `token`.
pub fn update_user_token(user_id: &i64, token: &String, store: &mut Store) -> (done: Result<
    (),
    StoreError,
>)
    ensures
        done is Ok,
        final(store)@ == old(store)@.with_token(*user_id, token@),
        old(store)@.wf() ==> final(store)@.wf(),
{
    proof {
        if store@.wf() {
            lemma_rows_stay_in_order(store@, arbitrary(), arbitrary(), *user_id, token@);
        }
    }
    let mut at: usize = 0;
    while at < store.users.len()
        invariant
            at <= store.users.len(),
            store.users.len() == old(store).users.len(),
            store.files == old(store).files,
            store.banned_ips == old(store).banned_ips,
            store.next_user_id == old(store).next_user_id,
            store.next_file_id == old(store).next_file_id,
            forall|j: int|
                0 <= j < at ==> (#[trigger] store.users@[j])@ == rekeyed(*user_id, token@)(
                    old(store).users@[j]@,
                ),
            forall|j: int| at <= j < store.users.len() ==> store.users@[j] == old(store).users@[j],
        decreases store.users.len() - at,
    {
        if store.users[at].id == *user_id {
            store.users[at].api_key = Some(token.clone());
        }
        at += 1;
    }
    assert(user_views(store.users@) =~= user_views(old(store).users@).map_values(
        rekeyed(*user_id, token@),
    ));
    Ok(())
}

/// Gives every account with the id `user_id` the password hash
/// `new_password`.
pub fn update_password(user_id: &i64, new_password: &String, store: &mut Store) -> (done: Result<
    (),
    StoreError,
>)
    ensures
        done is Ok,
        final(store)@ == old(store)@.with_password(*user_id, new_password@),
        old(store)@.wf() ==> final(store)@.wf(),
{
    proof {
        if store@.wf() {
            lemma_rows_stay_in_order(store@, arbitrary(), arbitrary(), *user_id, new_password@);
        }
    }
    let mut at: usize = 0;
    while at < store.users.len()
        invariant
            at <= store.users.len(),
            store.users.len() == old(store).users.len(),
            store.files == old(store).files,
            store.banned_ips == old(store).banned_ips,
            store.next_user_id == old(store).next_user_id,
            store.next_file_id == old(store).next_file_id,
            forall|j: int|
                0 <= j < at ==> (#[trigger] store.users@[j])@ == rehashed(*user_id, new_password@)(
                    old(store).users@[j]@,
                ),
            forall|j: int| at <= j < store.users.len() ==> store.users@[j] == old(store).users@[j],
        decreases store.users.len() - at,
    {
        if store.users[at].id == *user_id {
            store.users[at].hashed_password = new_password.clone();
        }
        at += 1;
    }
    assert(user_views(store.users@) =~= user_views(old(store).users@).map_values(
        rehashed(*user_id, new_password@),
    ));
    Ok(())
}

/// Inserts `file` under the next free id; the id it carries is not used.
pub fn write_file(file: &File, store: &mut Store) -> (done: Result<(), StoreError>)
    ensures
        match done {
            Ok(()) => old(store)@.next_file_id < i64::MAX && final(store)@ == old(store)@.with_file(file@),
            Err(e) => e == StoreError::Exhausted && old(store)@.next_file_id == i64::MAX && final(store)@ == old(store)@,
        },
        old(store)@.wf() ==> final(store)@.wf(),
{
    if store.next_file_id == i64::MAX {
        return Err(StoreError::Exhausted);
    }
    proof {
        if store@.wf() {
            lemma_rows_stay_in_order(store@, arbitrary(), file@, 0, Seq::empty());
        }
    }
    let mut row = file.clone();
    row.id = store.next_file_id;
    store.files.push(row);
    store.next_file_id = store.next_file_id + 1;
    assert(file_views(store.files@) =~= file_views(old(store).files@).push(
        FileView { id: old(store).next_file_id, ..file@ },
    ));
    Ok(())
}

/// Deletes every file record with the id `id`. Deleting none is no error.
pub fn delete_file_by_id(id: &i64, store: &mut Store) -> (done: Result<(), StoreError>)
    ensures
        done is Ok,
        final(store)@ == old(store)@.without_file(*id),
        old(store)@.wf() ==> final(store)@.wf(),
{
    proof {
        if store@.wf() {
            lemma_rows_stay_in_order_without(store@, *id);
        }
    }
    let ghost before = file_views(store.files@);
    let mut kept: Vec<File> = Vec::new();
    let mut at: usize = 0;
    proof {
        reveal(Seq::filter);
        assert(before.take(0) =~= Seq::<FileView>::empty());
    }
    while at < store.files.len()
        invariant
            at <= store.files.len(),
            before == file_views(store.files@),
            file_views(kept@) == before.take(at as int).filter(lacks_file_id(*id)),
        decreases store.files.len() - at,
    {
        proof {
            reveal(Seq::filter);
            assert(before.take(at + 1).drop_last() =~= before.take(at as int));
            assert(before[at as int] == store.files@[at as int]@);
        }
        if store.files[at].id != *id {
            let ghost shorter = file_views(kept@);
            kept.push(store.files[at].clone());
            assert(file_views(kept@) =~= shorter.push(before[at as int]));
        }
        at += 1;
    }
    assert(before.take(at as int) =~= before);
    store.files = kept;
    Ok(())
}

/// The files of `user_id` from row `offset` on, at most `limit` of them,
/// in the order in which they were inserted. A negative limit or offset is
/// refused.
pub fn list_files(user_id: i64, limit: i64, offset: i64, store: &Store) -> (rows: Result<
    Vec<File>,
    StoreError,
>)
    ensures
        match rows {
            Ok(list) => limit >= 0 && offset >= 0 && file_views(list@) == window(
                store@.files_of(user_id),
                limit as int,
                offset as int,
            ),
            Err(e) => e == StoreError::OutOfRange && (limit < 0 || offset < 0),
        },
{
    if limit < 0 || offset < 0 {
        return Err(StoreError::OutOfRange);
    }
    let ghost all = file_views(store.files@);
    let ghost owned = owned_by(user_id);
    let mut list: Vec<File> = Vec::new();
    let mut seen: usize = 0;
    let mut at: usize = 0;
    proof {
        reveal(Seq::filter);
        assert(all.take(0) =~= Seq::<FileView>::empty());
    }
    while at < store.files.len()
        invariant
            at <= store.files.len(),
            seen <= at,
            limit >= 0,
            offset >= 0,
            all == file_views(store.files@),
            owned == owned_by(user_id),
            seen == all.take(at as int).filter(owned).len(),
            file_views(list@) == window(
                all.take(at as int).filter(owned),
                limit as int,
                offset as int,
            ),
        decreases store.files.len() - at,
    {
        let ghost so_far = all.take(at as int).filter(owned);
        proof {
            reveal(Seq::filter);
            assert(all.take(at + 1).drop_last() =~= all.take(at as int));
            assert(all[at as int] == store.files@[at as int]@);
        }
        if store.files[at].uploaded_by == user_id {
            let ghost shorter = file_views(list@);
            let ghost longer = so_far.push(all[at as int]);
            assert(all.take(at + 1).filter(owned) == longer);
            if seen as u64 >= offset as u64 && (seen as u64 - offset as u64) < limit as u64 {
                list.push(store.files[at].clone());
                assert(file_views(list@) =~= shorter.push(all[at as int]));
                assert(file_views(list@) =~= window(longer, limit as int, offset as int));
            } else {
                assert(shorter =~= window(longer, limit as int, offset as int));
            }
            seen += 1;
        }
        at += 1;
    }
    assert(all.take(at as int) =~= all);
    Ok(list)
}

/// Page `page` of the files of `user`: twenty rows to a page, pages
/// counted from one. A page before the first is refused, as is one whose
/// offset cannot be written.
pub fn get_files_for_user(page: &i64, user: &User, store: &Store) -> (rows: Result<
    Vec<File>,
    StoreError,
>)
    ensures
        match rows {
            Ok(list) => 0 <= offset_of(*page) <= i64::MAX && file_views(list@) == window(
                store@.files_of(user.id),
                PAGE_SIZE as int,
                offset_of(*page),
            ),
            Err(e) => e == StoreError::OutOfRange && !(0 <= offset_of(*page) <= i64::MAX),
        },
{
    match page_offset(*page) {
        Some(offset) => list_files(user.id, PAGE_SIZE, offset, store),
        None => Err(StoreError::OutOfRange),
    }
}

/// The number of files of `user_id`.
pub fn get_number_of_files_for_user(store: &Store, user_id: &i64) -> (count: Result<
    Count,
    StoreError,
>)
    ensures
        match count {
            Ok(n) => n.num_count == store@.files_of(*user_id).len(),
            Err(e) => e == StoreError::OutOfRange && store@.files_of(*user_id).len() > i64::MAX,
        },
{
    let ghost all = file_views(store.files@);
    let ghost owned = owned_by(*user_id);
    let mut seen: usize = 0;
    let mut at: usize = 0;
    proof {
        reveal(Seq::filter);
        assert(all.take(0) =~= Seq::<FileView>::empty());
    }
    while at < store.files.len()
        invariant
            at <= store.files.len(),
            seen <= at,
            all == file_views(store.files@),
            owned == owned_by(*user_id),
            seen == all.take(at as int).filter(owned).len(),
        decreases store.files.len() - at,
    {
        proof {
            reveal(Seq::filter);
            assert(all.take(at + 1).drop_last() =~= all.take(at as int));
            assert(all[at as int] == store.files@[at as int]@);
        }
        if store.files[at].uploaded_by == *user_id {
            seen += 1;
        }
        at += 1;
    }
    assert(all.take(at as int) =~= all);
    if seen as u64 <= i64::MAX as u64 {
        Ok(Count { num_count: seen as i64 })
    } else {
        Err(StoreError::OutOfRange)
    }
}

} // verus!
