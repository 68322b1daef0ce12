use filehost::error::ErrorKind;
use filehost::files::{
    delete_file, get_files, page_offset, start_delete, start_listing, DeletePhase, Deletion,
    ListPhase, PAGE_SIZE,
};
use filehost::guard::{authorize, get_user, identify, lookup, Identity};
use filehost::model::{File, User};
use filehost::protocol::{Action, Confirmation, Next, Reply, Response};

fn account(id: i64, admin: bool) -> User {
    User {
        id,
        username: String::from("u"),
        email: None,
        is_admin: admin,
        api_key: Some(String::from("key")),
        last_update: 1,
        created_at: 1,
        hashed_password: String::new(),
    }
}

fn file(id: i64, owner: i64, name: &str) -> File {
    File {
        id,
        original_name: String::from("o.txt"),
        name: String::from(name),
        filetype: String::from("text/plain"),
        file_hash: String::from("ab"),
        file_size: 3,
        uploaded_by: owner,
        uploaded_by_ip: String::from("::1"),
        created_at: 7,
    }
}

#[test]
fn page_offsets() {
    assert_eq!(PAGE_SIZE, 20);
    assert_eq!(page_offset(1), Some(0));
    assert_eq!(page_offset(2), Some(20));
    assert_eq!(page_offset(3), Some(40));
    assert_eq!(page_offset(0), Some(-20));
    assert_eq!(page_offset(-4), Some(-100));
    assert_eq!(page_offset(i64::MAX), None);
    assert_eq!(page_offset(i64::MIN), None);
    assert_eq!(page_offset(i64::MAX / 20 + 1), Some(i64::MAX / 20 * 20));
    assert_eq!(page_offset(i64::MAX / 20 + 2), None);
}

#[test]
fn guard_looks_up_a_token_unless_it_is_empty() {
    assert_eq!(
        lookup(String::from("abc")),
        Next::Ask(Action::FindUserByToken { token: String::from("abc") })
    );
    assert_eq!(lookup(String::new()), Next::Respond(Response::Rejected(ErrorKind::Unauthorized)));
}

#[test]
fn guard_resolves_a_found_account_only() {
    assert_eq!(get_user(Reply::User(Some(account(3, false)))), Ok(account(3, false)));
    assert_eq!(get_user(Reply::User(None)), Err(ErrorKind::Unauthorized));
    assert_eq!(get_user(Reply::Failed), Err(ErrorKind::Unauthorized));
    assert_eq!(get_user(Reply::Done), Err(ErrorKind::Unauthorized));
}

#[test]
fn owner_and_admin_are_authorized_and_nobody_else() {
    assert_eq!(identify(&account(3, true)), Identity { id: 3, is_admin: true });
    assert_eq!(authorize(Identity { id: 3, is_admin: false }, 3), Ok(()));
    assert_eq!(authorize(Identity { id: 3, is_admin: true }, 4), Ok(()));
    assert_eq!(
        authorize(Identity { id: 3, is_admin: false }, 4),
        Err(ErrorKind::Unauthorized)
    );
}

#[test]
fn listing_asks_for_the_requesters_page() {
    let (state, next) = start_listing(String::from("key"), 3);
    assert_eq!(state.phase, ListPhase::Authenticating);
    assert_eq!(next, Next::Ask(Action::FindUserByToken { token: String::from("key") }));
    let (state, next) = get_files(state, Reply::User(Some(account(5, false))));
    assert_eq!(state.phase, ListPhase::Listing);
    assert_eq!(next, Next::Ask(Action::ListFiles { user_id: 5, limit: 20, offset: 40 }));
    let rows = vec![file(1, 5, "a"), file(2, 5, "b")];
    let (state, next) = get_files(state, Reply::Files(rows));
    assert_eq!(state.phase, ListPhase::Finished);
    assert_eq!(next, Next::Respond(Response::Files(vec![file(1, 5, "a"), file(2, 5, "b")])));
}

#[test]
fn listing_does_not_guard_the_page_number() {
    let (state, _) = start_listing(String::from("key"), 0);
    let (_, next) = get_files(state, Reply::User(Some(account(5, false))));
    assert_eq!(next, Next::Ask(Action::ListFiles { user_id: 5, limit: 20, offset: -20 }));
}

#[test]
fn listing_rejections() {
    let (state, next) = start_listing(String::new(), 1);
    assert_eq!(state.phase, ListPhase::Finished);
    assert_eq!(next, Next::Respond(Response::Rejected(ErrorKind::Unauthorized)));

    let (state, _) = start_listing(String::from("key"), 1);
    let (_, next) = get_files(state, Reply::User(None));
    assert_eq!(next, Next::Respond(Response::Rejected(ErrorKind::Unauthorized)));

    let (state, _) = start_listing(String::from("key"), i64::MIN);
    let (_, next) = get_files(state, Reply::User(Some(account(5, false))));
    assert_eq!(next, Next::Respond(Response::Rejected(ErrorKind::InternalError)));

    let (state, _) = start_listing(String::from("key"), 1);
    let (state, _) = get_files(state, Reply::User(Some(account(5, false))));
    let (state, next) = get_files(state, Reply::Failed);
    assert_eq!(next, Next::Respond(Response::Rejected(ErrorKind::InternalError)));
    let (_, next) = get_files(state, Reply::Files(Vec::new()));
    assert_eq!(next, Next::Respond(Response::Rejected(ErrorKind::InternalError)));
}

fn finding(id: i64, admin: bool) -> Deletion {
    let (state, _) = start_delete(String::from("key"), 77);
    let (state, _) = delete_file(state, Reply::User(Some(account(id, admin))));
    state
}

#[test]
fn delete_removes_the_blob_before_the_record() {
    let (state, next) = start_delete(String::from("key"), 77);
    assert_eq!(state.phase, DeletePhase::Authenticating);
    assert_eq!(next, Next::Ask(Action::FindUserByToken { token: String::from("key") }));
    let (state, next) = delete_file(state, Reply::User(Some(account(5, false))));
    assert_eq!(state.phase, DeletePhase::FindingFile);
    assert_eq!(state.requester, Identity { id: 5, is_admin: false });
    assert_eq!(next, Next::Ask(Action::FindFileById { id: 77 }));
    let (state, next) = delete_file(state, Reply::File(Some(file(77, 5, "Tok.txt"))));
    assert_eq!(state.phase, DeletePhase::ReadingBlob);
    assert_eq!(state.name, "Tok.txt");
    assert_eq!(next, Next::Ask(Action::ReadBlob { name: String::from("Tok.txt") }));
    let (state, next) = delete_file(state, Reply::Blob(vec![1, 2, 3]));
    assert_eq!(state.phase, DeletePhase::RemovingBlob);
    assert_eq!(state.content, vec![1, 2, 3]);
    assert_eq!(next, Next::Ask(Action::RemoveBlob { name: String::from("Tok.txt") }));
    let (state, next) = delete_file(state, Reply::Done);
    assert_eq!(state.phase, DeletePhase::DeletingFile);
    assert_eq!(next, Next::Ask(Action::DeleteFile { id: 77 }));
    let (state, next) = delete_file(state, Reply::Done);
    assert_eq!(state.phase, DeletePhase::Finished);
    assert_eq!(next, Next::Respond(Response::Confirmed(Confirmation::FileDeleted)));
    assert_eq!(Confirmation::FileDeleted.text(), "Successfully deleted file");
}

fn deleting() -> Deletion {
    let (state, _) = delete_file(finding(5, false), Reply::File(Some(file(77, 5, "n"))));
    let (state, _) = delete_file(state, Reply::Blob(vec![9, 8, 7]));
    let (state, _) = delete_file(state, Reply::Done);
    state
}

#[test]
fn delete_of_a_missing_file_is_not_found() {
    let (state, next) = delete_file(finding(5, false), Reply::File(None));
    assert_eq!(state.phase, DeletePhase::Finished);
    assert_eq!(next, Next::Respond(Response::Rejected(ErrorKind::NotFound)));
    let (_, next) = delete_file(finding(5, true), Reply::Failed);
    assert_eq!(next, Next::Respond(Response::Rejected(ErrorKind::NotFound)));
}

#[test]
fn delete_of_another_users_file_is_unauthorized() {
    let (state, next) = delete_file(finding(5, false), Reply::File(Some(file(77, 6, "n"))));
    assert_eq!(state.phase, DeletePhase::Finished);
    assert_eq!(next, Next::Respond(Response::Rejected(ErrorKind::Unauthorized)));
}

#[test]
fn an_administrator_deletes_any_file() {
    let (state, next) = delete_file(finding(5, true), Reply::File(Some(file(77, 6, "n"))));
    assert_eq!(state.phase, DeletePhase::ReadingBlob);
    assert_eq!(next, Next::Ask(Action::ReadBlob { name: String::from("n") }));
}

#[test]
fn a_blob_that_cannot_be_read_or_removed_keeps_its_record() {
    let (state, _) = delete_file(finding(5, false), Reply::File(Some(file(77, 5, "n"))));
    let (state, next) = delete_file(state, Reply::Failed);
    assert_eq!(state.phase, DeletePhase::Finished);
    assert_eq!(next, Next::Respond(Response::Rejected(ErrorKind::InternalError)));

    let (state, _) = delete_file(finding(5, false), Reply::File(Some(file(77, 5, "n"))));
    let (state, _) = delete_file(state, Reply::Blob(vec![1]));
    let (state, next) = delete_file(state, Reply::Failed);
    assert_eq!(state.phase, DeletePhase::Finished);
    assert_eq!(next, Next::Respond(Response::Rejected(ErrorKind::InternalError)));
}

#[test]
fn a_record_that_cannot_be_deleted_has_its_blob_written_back() {
    let (state, next) = delete_file(deleting(), Reply::Failed);
    assert_eq!(state.phase, DeletePhase::RestoringBlob);
    assert_eq!(
        next,
        Next::Ask(Action::WriteBlob { name: String::from("n"), content: vec![9, 8, 7] })
    );
    let (state, next) = delete_file(state, Reply::Done);
    assert_eq!(state.phase, DeletePhase::Finished);
    assert_eq!(next, Next::Respond(Response::Rejected(ErrorKind::InternalError)));
}

#[test]
fn a_blob_that_cannot_be_written_back_is_reported_as_inconsistent() {
    let (state, _) = delete_file(deleting(), Reply::Failed);
    let (state, next) = delete_file(state, Reply::Failed);
    assert_eq!(state.phase, DeletePhase::Finished);
    assert_eq!(next, Next::Respond(Response::Inconsistent(String::from("n"))));
}

#[test]
fn delete_without_token_is_unauthorized() {
    let (state, next) = start_delete(String::new(), 77);
    assert_eq!(state.phase, DeletePhase::Finished);
    assert_eq!(next, Next::Respond(Response::Rejected(ErrorKind::Unauthorized)));
    let (state, _) = start_delete(String::from("key"), 77);
    let (_, next) = delete_file(state, Reply::User(None));
    assert_eq!(next, Next::Respond(Response::Rejected(ErrorKind::Unauthorized)));
}
