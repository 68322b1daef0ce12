use filehost::config::ServerConfig;
use filehost::db::{create_user, get_file_by_id, list_files, Store};
use filehost::error::ErrorKind;
use filehost::fingerprint::fingerprint;
use filehost::model::{File, PasswordUpdate, User, UserLogin, UserRegister};
use filehost::protocol::{Action, Confirmation, PartHeader, Reply, Response};
use filehost::serve::UploadRequest;
use filehost::service::{Faults, FormPart, Service};

fn config(max: u64) -> ServerConfig {
    ServerConfig {
        port: 7000,
        database_url: String::from("mysql://db"),
        register_enabled: true,
        max_file_size_bytes: max,
        file_name_length: 16,
        base_url: String::from("https://files.example"),
    }
}

fn member(name: &str, key: &str, admin: bool) -> User {
    User {
        id: 0,
        username: String::from(name),
        email: None,
        is_admin: admin,
        api_key: Some(String::from(key)),
        last_update: 1,
        created_at: 1,
        hashed_password: String::new(),
    }
}

fn service_with_members() -> Service {
    let mut service = Service::new();
    create_user(&member("ann", "key-ann", false), &mut service.store).unwrap();
    create_user(&member("bob", "key-bob", false), &mut service.store).unwrap();
    create_user(&member("root", "key-root", true), &mut service.store).unwrap();
    service
}

fn form(filename: &str, chunks: Vec<Vec<u8>>) -> Option<Vec<FormPart>> {
    Some(vec![
        FormPart {
            header: PartHeader {
                name: String::from("comment"),
                content_type: None,
                filename: None,
            },
            chunks: vec![vec![0; 4]],
        },
        FormPart {
            header: PartHeader {
                name: String::from("file"),
                content_type: Some(String::from("text/plain")),
                filename: Some(String::from(filename)),
            },
            chunks,
        },
    ])
}

fn upload(token: &str, filename: &str, chunks: Vec<Vec<u8>>) -> UploadRequest {
    UploadRequest {
        token: String::from(token),
        source_ip: String::from("10.0.0.7"),
        received_at: 1700000000,
        form: form(filename, chunks),
    }
}

fn files_of(service: &Service, owner: i64) -> Vec<File> {
    list_files(owner, i64::MAX, 0, &service.store).unwrap()
}

#[test]
fn perform_answers_from_the_stores() {
    let mut service = service_with_members();
    let mut cursor = 0usize;
    let body = form("x.txt", vec![vec![1], vec![2, 3]]);
    let reply = service.perform(
        &body,
        &mut cursor,
        Action::FindUserByToken { token: String::from("key-bob") },
    );
    assert!(matches!(reply, Reply::User(Some(ref u)) if u.id == 2));
    assert_eq!(service.perform(&body, &mut cursor, Action::CountUsers), Reply::Count(3));
    assert_eq!(
        service.perform(&body, &mut cursor, Action::ReadChunk { part: 1 }),
        Reply::Chunk(vec![1])
    );
    assert_eq!(
        service.perform(&body, &mut cursor, Action::ReadChunk { part: 1 }),
        Reply::Chunk(vec![2, 3])
    );
    assert_eq!(cursor, 2);
    assert_eq!(
        service.perform(&body, &mut cursor, Action::ReadChunk { part: 1 }),
        Reply::EndOfBody
    );
    assert_eq!(service.perform(&body, &mut cursor, Action::ReadChunk { part: 2 }), Reply::Failed);
    assert_eq!(service.perform(&None, &mut cursor, Action::ReadParts), Reply::Failed);
    assert_eq!(
        service.perform(&body, &mut cursor, Action::RemoveBlob { name: String::from("none") }),
        Reply::Failed
    );
    assert_eq!(
        service.perform(&body, &mut cursor, Action::ReadBlob { name: String::from("none") }),
        Reply::Failed
    );
    assert_eq!(
        service.perform(
            &body,
            &mut cursor,
            Action::WriteBlob { name: String::from("some"), content: vec![5, 6] }
        ),
        Reply::Done
    );
    assert_eq!(
        service.perform(&body, &mut cursor, Action::ReadBlob { name: String::from("some") }),
        Reply::Blob(vec![5, 6])
    );
    assert_eq!(
        service.perform(
            &body,
            &mut cursor,
            Action::ListFiles { user_id: 1, limit: 20, offset: -20 }
        ),
        Reply::Failed
    );
}

#[test]
fn an_upload_is_stored_with_blob_and_record() {
    let mut service = service_with_members();
    let cfg = config(1000);
    let response = service.upload_named(
        &cfg,
        upload("key-ann", "notes.tar.gz", vec![vec![1, 2], vec![3], vec![]]),
        String::from("Tok0000000000001"),
    );
    assert_eq!(
        response,
        Response::Url(String::from("https://files.example/Tok0000000000001.gz"))
    );
    assert_eq!(
        service.blobs.read(&String::from("Tok0000000000001.gz")),
        Some(vec![1, 2, 3])
    );
    assert_eq!(
        files_of(&service, 1),
        vec![File {
            id: 1,
            original_name: String::from("notes.tar.gz"),
            name: String::from("Tok0000000000001.gz"),
            filetype: String::from("text/plain"),
            file_hash: fingerprint(&vec![1, 2, 3]),
            file_size: 3,
            uploaded_by: 1,
            uploaded_by_ip: String::from("10.0.0.7"),
            created_at: 1700000000,
        }]
    );
}

#[test]
fn uploading_the_same_bytes_twice_gives_one_record_and_one_address() {
    let mut service = service_with_members();
    let cfg = config(1000);
    let first = service.upload_named(
        &cfg,
        upload("key-ann", "a.txt", vec![vec![1, 2, 3, 4]]),
        String::from("First00000000000"),
    );
    let second = service.upload_named(
        &cfg,
        upload("key-ann", "renamed.bin", vec![vec![1, 2], vec![3, 4]]),
        String::from("Second0000000000"),
    );
    assert_eq!(first, Response::Url(String::from("https://files.example/First00000000000.txt")));
    assert_eq!(second, first);
    assert_eq!(files_of(&service, 1).len(), 1);
    assert!(service.blobs.contains(&String::from("First00000000000.txt")));
    assert!(!service.blobs.contains(&String::from("Second0000000000.bin")));
}

#[test]
fn the_same_bytes_from_another_user_are_stored_again() {
    let mut service = service_with_members();
    let cfg = config(1000);
    let first = service.upload_named(
        &cfg,
        upload("key-ann", "a.txt", vec![vec![1, 2, 3, 4]]),
        String::from("First00000000000"),
    );
    let second = service.upload_named(
        &cfg,
        upload("key-bob", "a.txt", vec![vec![1, 2, 3, 4]]),
        String::from("Second0000000000"),
    );
    assert_ne!(first, second);
    assert_eq!(
        second,
        Response::Url(String::from("https://files.example/Second0000000000.txt"))
    );
    assert_eq!(files_of(&service, 1).len(), 1);
    assert_eq!(files_of(&service, 2).len(), 1);
    assert!(service.blobs.contains(&String::from("First00000000000.txt")));
    assert!(service.blobs.contains(&String::from("Second0000000000.txt")));
}

#[test]
fn an_upload_with_a_random_name_has_a_token_of_the_configured_length() {
    let mut service = service_with_members();
    let cfg = config(1000);
    let response = service.upload(&cfg, upload("key-ann", "x.txt", vec![vec![7; 10]]));
    let url = match response {
        Response::Url(url) => url,
        other => panic!("unexpected response {:?}", other),
    };
    let name = url.strip_prefix("https://files.example/").expect("the address starts at the base");
    let token = name.strip_suffix(".txt").expect("the extension is kept");
    assert_eq!(token.len(), 16);
    assert!(token.chars().all(|c| c.is_ascii_alphanumeric()));
    assert_eq!(service.blobs.read(&String::from(name)), Some(vec![7; 10]));
}

#[test]
fn a_denied_address_cannot_upload() {
    let mut service = service_with_members();
    service.store.ban_ip(String::from("10.0.0.7"));
    let cfg = config(1000);
    let response =
        service.upload(&cfg, upload("key-root", "a.txt", vec![vec![1, 2, 3]]));
    assert_eq!(response, Response::Rejected(ErrorKind::Banned));
    assert!(service.blobs.is_empty());
    assert_eq!(files_of(&service, 3).len(), 0);
    let response = service.upload(&cfg, upload("no-such-key", "a.txt", vec![vec![1]]));
    assert_eq!(response, Response::Rejected(ErrorKind::Unauthorized));
    let mut elsewhere = upload("key-root", "a.txt", vec![vec![1, 2, 3]]);
    elsewhere.source_ip = String::from("10.0.0.8");
    assert!(matches!(service.upload(&cfg, elsewhere), Response::Url(_)));
}

#[test]
fn an_upload_without_account_is_unauthorized() {
    let mut service = service_with_members();
    let cfg = config(1000);
    assert_eq!(
        service.upload(&cfg, upload("", "a.txt", vec![vec![1]])),
        Response::Rejected(ErrorKind::Unauthorized)
    );
    assert_eq!(
        service.upload(&cfg, upload("key-nobody", "a.txt", vec![vec![1]])),
        Response::Rejected(ErrorKind::Unauthorized)
    );
    assert!(service.blobs.is_empty());
}

#[test]
fn an_upload_over_the_cap_writes_nothing() {
    let mut service = service_with_members();
    let cfg = config(10);
    let response = service.upload(
        &cfg,
        upload("key-ann", "a.txt", vec![vec![0; 6], vec![0; 5], vec![0; 100]]),
    );
    assert_eq!(response, Response::Rejected(ErrorKind::PayloadTooLarge));
    assert!(service.blobs.is_empty());
    assert_eq!(files_of(&service, 1).len(), 0);
    let response =
        service.upload(&cfg, upload("key-ann", "a.txt", vec![vec![0; 6], vec![0; 4]]));
    assert!(matches!(response, Response::Url(_)));
    assert_eq!(files_of(&service, 1)[0].file_size, 10);
}

#[test]
fn a_malformed_upload_is_a_bad_request() {
    let mut service = service_with_members();
    let cfg = config(1000);
    let mut request = upload("key-ann", "a.txt", vec![vec![1]]);
    request.form = None;
    assert_eq!(service.upload(&cfg, request), Response::Rejected(ErrorKind::BadRequest));

    let mut request = upload("key-ann", "a.txt", vec![vec![1]]);
    request.form = Some(Vec::new());
    assert_eq!(service.upload(&cfg, request), Response::Rejected(ErrorKind::BadRequest));

    let mut request = upload("key-ann", "a.txt", vec![vec![1]]);
    if let Some(parts) = request.form.as_mut() {
        parts[1].header.content_type = None;
    }
    assert_eq!(service.upload(&cfg, request), Response::Rejected(ErrorKind::BadRequest));

    let mut request = upload("key-ann", "a.txt", vec![vec![1]]);
    if let Some(parts) = request.form.as_mut() {
        parts[1].header.filename = None;
    }
    assert_eq!(service.upload(&cfg, request), Response::Rejected(ErrorKind::BadRequest));
    assert!(service.blobs.is_empty());
}

#[test]
fn a_failed_blob_write_leaves_no_record() {
    let mut service = service_with_members();
    service.faults.write_blob = true;
    let cfg = config(1000);
    let response = service.upload(&cfg, upload("key-ann", "a.txt", vec![vec![1]]));
    assert_eq!(response, Response::Rejected(ErrorKind::InternalError));
    assert!(service.blobs.is_empty());
    assert_eq!(files_of(&service, 1).len(), 0);
}

#[test]
fn a_failed_insert_removes_the_blob_again() {
    let mut service = service_with_members();
    service.faults.insert_file = true;
    let cfg = config(1000);
    let response = service.upload_named(
        &cfg,
        upload("key-ann", "a.txt", vec![vec![1, 2, 3]]),
        String::from("Tok0000000000001"),
    );
    assert_eq!(response, Response::Rejected(ErrorKind::InternalError));
    assert!(!service.blobs.contains(&String::from("Tok0000000000001.txt")));
    assert!(service.blobs.is_empty());
    assert_eq!(files_of(&service, 1).len(), 0);
}

#[test]
fn a_failed_insert_and_a_failed_cleanup_are_inconsistent() {
    let mut service = service_with_members();
    service.faults.insert_file = true;
    service.faults.remove_blob = true;
    let cfg = config(1000);
    let response = service.upload_named(
        &cfg,
        upload("key-ann", "a.txt", vec![vec![1, 2, 3]]),
        String::from("Tok0000000000001"),
    );
    assert_eq!(response, Response::Inconsistent(String::from("Tok0000000000001.txt")));
    assert!(service.blobs.contains(&String::from("Tok0000000000001.txt")));
    assert_eq!(files_of(&service, 1).len(), 0);
}

#[test]
fn a_listing_shows_only_the_requesters_files() {
    let mut service = service_with_members();
    let cfg = config(1000);
    for i in 0..3u8 {
        service.upload(&cfg, upload("key-ann", "a.txt", vec![vec![i]]));
        service.upload(&cfg, upload("key-bob", "b.txt", vec![vec![i, i]]));
    }
    match service.list_files(String::from("key-ann"), 1) {
        Response::Files(rows) => {
            assert_eq!(rows.len(), 3);
            assert!(rows.iter().all(|f| f.uploaded_by == 1 && f.original_name == "a.txt"));
        }
        other => panic!("unexpected response {:?}", other),
    }
    match service.list_files(String::from("key-bob"), 1) {
        Response::Files(rows) => {
            assert_eq!(rows.len(), 3);
            assert!(rows.iter().all(|f| f.uploaded_by == 2));
        }
        other => panic!("unexpected response {:?}", other),
    }
    assert_eq!(service.list_files(String::from("key-root"), 1), Response::Files(Vec::new()));
    assert_eq!(service.list_files(String::from("key-ann"), 2), Response::Files(Vec::new()));
    assert_eq!(
        service.list_files(String::from("key-ann"), 0),
        Response::Rejected(ErrorKind::InternalError)
    );
    assert_eq!(
        service.list_files(String::from("nobody"), 1),
        Response::Rejected(ErrorKind::Unauthorized)
    );
    assert_eq!(
        service.list_files(String::new(), 1),
        Response::Rejected(ErrorKind::Unauthorized)
    );
}

#[test]
fn nobody_deletes_another_users_file_but_an_administrator() {
    let mut service = service_with_members();
    let cfg = config(1000);
    service.upload_named(
        &cfg,
        upload("key-bob", "b.txt", vec![vec![1]]),
        String::from("BobsFile00000000"),
    );
    service.upload_named(
        &cfg,
        upload("key-bob", "c.txt", vec![vec![2]]),
        String::from("BobsOther0000000"),
    );
    assert_eq!(
        service.delete(String::from("key-ann"), 1),
        Response::Rejected(ErrorKind::Unauthorized)
    );
    assert!(service.blobs.contains(&String::from("BobsFile00000000.txt")));
    assert!(get_file_by_id(&1, &service.store).is_some());
    assert_eq!(
        service.delete(String::from("key-root"), 1),
        Response::Confirmed(Confirmation::FileDeleted)
    );
    assert!(!service.blobs.contains(&String::from("BobsFile00000000.txt")));
    assert!(get_file_by_id(&1, &service.store).is_none());
    assert_eq!(
        service.delete(String::from("key-bob"), 2),
        Response::Confirmed(Confirmation::FileDeleted)
    );
    assert!(service.blobs.is_empty());
    assert_eq!(files_of(&service, 2).len(), 0);
}

#[test]
fn delete_rejections() {
    let mut service = service_with_members();
    let cfg = config(1000);
    service.upload_named(
        &cfg,
        upload("key-ann", "a.txt", vec![vec![1]]),
        String::from("AnnsFile00000000"),
    );
    assert_eq!(
        service.delete(String::from("key-ann"), 99),
        Response::Rejected(ErrorKind::NotFound)
    );
    assert_eq!(
        service.delete(String::from("nobody"), 1),
        Response::Rejected(ErrorKind::Unauthorized)
    );
    service.faults.remove_blob = true;
    assert_eq!(
        service.delete(String::from("key-ann"), 1),
        Response::Rejected(ErrorKind::InternalError)
    );
    assert!(get_file_by_id(&1, &service.store).is_some());
    assert!(service.blobs.contains(&String::from("AnnsFile00000000.txt")));
}

#[test]
fn a_record_that_cannot_be_deleted_gets_its_blob_back() {
    let mut service = service_with_members();
    let cfg = config(1000);
    let name = String::from("AnnsFile00000000.txt");
    service.upload_named(
        &cfg,
        upload("key-ann", "a.txt", vec![vec![1, 2, 3]]),
        String::from("AnnsFile00000000"),
    );
    service.faults.delete_file = true;
    assert_eq!(
        service.delete(String::from("key-ann"), 1),
        Response::Rejected(ErrorKind::InternalError)
    );
    assert!(get_file_by_id(&1, &service.store).is_some());
    assert_eq!(service.blobs.read(&name), Some(vec![1, 2, 3]));
    service.faults = Faults::none();
    assert_eq!(
        service.delete(String::from("key-ann"), 1),
        Response::Confirmed(Confirmation::FileDeleted)
    );
    assert!(get_file_by_id(&1, &service.store).is_none());
    assert!(!service.blobs.contains(&name));
}

#[test]
fn a_blob_that_cannot_be_put_back_is_inconsistent() {
    let mut service = service_with_members();
    let cfg = config(1000);
    let name = String::from("AnnsFile00000000.txt");
    service.upload_named(
        &cfg,
        upload("key-ann", "a.txt", vec![vec![1, 2, 3]]),
        String::from("AnnsFile00000000"),
    );
    service.faults.delete_file = true;
    service.faults.write_blob = true;
    assert_eq!(service.delete(String::from("key-ann"), 1), Response::Inconsistent(name.clone()));
    assert!(get_file_by_id(&1, &service.store).is_some());
    assert!(!service.blobs.contains(&name));
}

#[test]
fn a_record_without_blob_cannot_be_deleted() {
    let mut service = service_with_members();
    filehost::db::write_file(
        &File {
            id: 0,
            original_name: String::from("a.txt"),
            name: String::from("Lost000000000000.txt"),
            filetype: String::from("text/plain"),
            file_hash: String::from("ab"),
            file_size: 1,
            uploaded_by: 1,
            uploaded_by_ip: String::from("::1"),
            created_at: 1,
        },
        &mut service.store,
    )
    .unwrap();
    assert_eq!(
        service.delete(String::from("key-ann"), 1),
        Response::Rejected(ErrorKind::InternalError)
    );
    assert!(get_file_by_id(&1, &service.store).is_some());
}

fn registration(name: &str, password: &str, email: Option<&str>) -> UserRegister {
    UserRegister {
        username: String::from(name),
        password: String::from(password),
        email: email.map(String::from),
    }
}

#[test]
fn end_to_end_register_login_upload_list_delete() {
    let mut service = Service::new();
    let cfg = config(1000);

    let registered = match service.register(registration("u", "pw", Some("u@example.org")), 100) {
        Response::Account(account) => account,
        other => panic!("unexpected response {:?}", other),
    };
    assert!(registered.is_admin);
    assert_eq!(registered.username, "u");
    assert_eq!(registered.created_at, 100);

    let account = match service.login(UserLogin {
        username: String::from("u"),
        password: String::from("pw"),
    }) {
        Response::Account(account) => account,
        other => panic!("unexpected response {:?}", other),
    };
    assert_eq!(account.id, 1);
    assert!(account.is_admin);
    assert_eq!(account.api_key, registered.api_key);
    let token = account.api_key.clone().expect("the account has a key");
    assert_eq!(token.len(), 30);

    let url = match service.upload(&cfg, upload(&token, "x.txt", vec![b"0123456789".to_vec()])) {
        Response::Url(url) => url,
        other => panic!("unexpected response {:?}", other),
    };
    let name = url.strip_prefix("https://files.example/").expect("the address starts at the base");
    let stem = name.strip_suffix(".txt").expect("the extension is kept");
    assert_eq!(stem.len(), 16);
    assert!(stem.chars().all(|c| c.is_ascii_alphanumeric()));
    assert_eq!(service.blobs.read(&String::from(name)), Some(b"0123456789".to_vec()));

    let rows = match service.list_files(token.clone(), 1) {
        Response::Files(rows) => rows,
        other => panic!("unexpected response {:?}", other),
    };
    assert_eq!(rows.len(), 1);
    assert_eq!(rows[0].file_size, 10);
    assert_eq!(rows[0].name, name);
    assert_eq!(rows[0].original_name, "x.txt");
    assert_eq!(rows[0].uploaded_by, account.id);

    assert_eq!(
        service.delete(token.clone(), rows[0].id),
        Response::Confirmed(Confirmation::FileDeleted)
    );
    assert!(!service.blobs.contains(&String::from(name)));
    assert!(get_file_by_id(&rows[0].id, &service.store).is_none());
    assert_eq!(service.list_files(token, 1), Response::Files(Vec::new()));
}

#[test]
fn only_the_first_registrant_is_administrator() {
    let mut service = Service::new();
    let first = service.register_keyed(registration("a", "pw", None), 1, String::from("ka"));
    let second = service.register_keyed(
        registration("b", "pw", Some("b@example.org")),
        2,
        String::from("kb"),
    );
    assert!(matches!(first, Response::Account(ref u) if u.is_admin && u.id == 0));
    assert!(matches!(second, Response::Account(ref u) if !u.is_admin));
    let missing_email_again = service.register(registration("c", "pw", None), 3);
    assert!(matches!(missing_email_again, Response::Account(ref u) if u.email.is_none()));
    let and_again = service.register(registration("e", "pw", None), 3);
    assert!(matches!(and_again, Response::Account(ref u) if u.email.is_none() && !u.is_admin));
    let same_name_without_email = service.register(registration("c", "pw", None), 3);
    assert_eq!(same_name_without_email, Response::Rejected(ErrorKind::LoginTaken));
    let same_name = service.register(registration("a", "pw", Some("other@example.org")), 3);
    assert_eq!(same_name, Response::Rejected(ErrorKind::LoginTaken));
    let same_email = service.register(registration("d", "pw", Some("b@example.org")), 3);
    assert_eq!(same_email, Response::Rejected(ErrorKind::LoginTaken));
}

#[test]
fn a_login_needs_name_and_password() {
    let mut service = Service::new();
    service.register(registration("ann", "right", Some("a@example.org")), 1);
    let login = |name: &str, password: &str| UserLogin {
        username: String::from(name),
        password: String::from(password),
    };
    assert!(matches!(service.login(login("ann", "right")), Response::Account(_)));
    assert_eq!(
        service.login(login("ann", "wrong")),
        Response::Rejected(ErrorKind::Unauthorized)
    );
    assert_eq!(
        service.login(login("bob", "right")),
        Response::Rejected(ErrorKind::Unauthorized)
    );
}

#[test]
fn a_token_reset_replaces_the_key() {
    let mut service = service_with_members();
    assert_eq!(
        service.reset_token_keyed(String::from("key-ann"), 2, String::from("stolen")),
        Response::Rejected(ErrorKind::Unauthorized)
    );
    assert_eq!(
        service.reset_token_keyed(String::from("key-ann"), 1, String::from("fresh-ann")),
        Response::Confirmed(Confirmation::TokenReset)
    );
    assert_eq!(
        service.list_files(String::from("key-ann"), 1),
        Response::Rejected(ErrorKind::Unauthorized)
    );
    assert_eq!(service.list_files(String::from("fresh-ann"), 1), Response::Files(Vec::new()));
    assert_eq!(
        service.reset_token_keyed(String::from("key-root"), 2, String::from("fresh-bob")),
        Response::Confirmed(Confirmation::TokenReset)
    );
    assert_eq!(service.list_files(String::from("fresh-bob"), 1), Response::Files(Vec::new()));
    assert_eq!(
        service.reset_token(String::from("fresh-bob"), 2),
        Response::Confirmed(Confirmation::TokenReset)
    );
    assert_eq!(
        service.list_files(String::from("fresh-bob"), 1),
        Response::Rejected(ErrorKind::Unauthorized)
    );
}

#[test]
fn a_password_change_needs_the_old_password() {
    let mut service = Service::new();
    let key = match service.register(registration("ann", "old", Some("a@example.org")), 1) {
        Response::Account(account) => account.api_key.expect("the account has a key"),
        other => panic!("unexpected response {:?}", other),
    };
    let change = |old: &str, new: &str| PasswordUpdate {
        password: String::from(old),
        new_password: String::from(new),
    };
    assert_eq!(
        service.change_password(key.clone(), 1, change("guess", "new")),
        Response::Rejected(ErrorKind::Unauthorized)
    );
    assert_eq!(
        service.change_password(String::from("nobody"), 1, change("old", "new")),
        Response::Rejected(ErrorKind::Unauthorized)
    );
    assert_eq!(
        service.change_password(key.clone(), 7, change("old", "new")),
        Response::Rejected(ErrorKind::InternalError)
    );
    assert_eq!(
        service.change_password(key, 1, change("old", "new")),
        Response::Confirmed(Confirmation::PasswordUpdated)
    );
    let login = |password: &str| UserLogin {
        username: String::from("ann"),
        password: String::from(password),
    };
    assert!(matches!(service.login(login("new")), Response::Account(_)));
    assert_eq!(service.login(login("old")), Response::Rejected(ErrorKind::Unauthorized));
}

#[test]
fn a_new_service_is_empty() {
    let service = Service::new();
    assert_eq!(service.faults, Faults::none());
    assert!(service.blobs.is_empty());
    assert_eq!(filehost::db::get_number_of_users(&service.store), Ok(0));
    let _ = Store::new();
}
