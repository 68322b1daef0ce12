use filehost::blobs::BlobStore;
use filehost::db::{
    check_if_username_or_email_used, check_user_login, create_user, delete_file_by_id,
    get_existing_file_by_hash, get_file_by_id, get_files_for_user, get_number_of_files_for_user,
    get_number_of_users, get_user_by_id, get_user_by_token, is_ip_banned, list_files,
    update_password, update_user_token, write_file, Store, StoreError,
};
use filehost::model::{Count, File, User, UserLogin};

fn user(name: &str, email: Option<&str>, key: Option<&str>) -> User {
    User {
        id: 0,
        username: String::from(name),
        email: email.map(String::from),
        is_admin: false,
        api_key: key.map(String::from),
        last_update: 10,
        created_at: 10,
        hashed_password: String::from("hash"),
    }
}

fn file(owner: i64, name: &str, hash: &str) -> File {
    File {
        id: 0,
        original_name: String::from("o.txt"),
        name: String::from(name),
        filetype: String::from("text/plain"),
        file_hash: String::from(hash),
        file_size: 3,
        uploaded_by: owner,
        uploaded_by_ip: String::from("::1"),
        created_at: 7,
    }
}

fn login(name: &str) -> UserLogin {
    UserLogin { username: String::from(name), password: String::new() }
}

#[test]
fn an_empty_store_finds_nothing() {
    let store = Store::new();
    assert_eq!(get_number_of_users(&store), Ok(0));
    assert_eq!(get_user_by_token(&String::from("k"), &store), None);
    assert_eq!(get_user_by_id(&1, &store), None);
    assert_eq!(check_user_login(&login("ann"), &store), None);
    assert_eq!(get_file_by_id(&1, &store), None);
    assert_eq!(get_existing_file_by_hash("ab", &1, &store), None);
    assert_eq!(is_ip_banned("::1", &store), Ok(false));
    assert_eq!(list_files(1, 20, 0, &store), Ok(Vec::new()));
    assert_eq!(get_number_of_files_for_user(&store, &1), Ok(Count { num_count: 0 }));
    assert_eq!(check_if_username_or_email_used(&String::from("a"), &None, &store), Ok(false));
    assert_eq!(
        check_if_username_or_email_used(&String::from("a"), &Some(String::new()), &store),
        Ok(false)
    );
}

#[test]
fn accounts_get_ids_from_one_in_order() {
    let mut store = Store::new();
    assert_eq!(create_user(&user("ann", None, Some("ka")), &mut store), Ok(()));
    assert_eq!(create_user(&user("bob", None, Some("kb")), &mut store), Ok(()));
    assert_eq!(get_number_of_users(&store), Ok(2));
    let ann = get_user_by_token(&String::from("ka"), &store).expect("ann is there");
    let bob = check_user_login(&login("bob"), &store).expect("bob is there");
    assert_eq!((ann.id, ann.username.as_str()), (1, "ann"));
    assert_eq!((bob.id, bob.username.as_str()), (2, "bob"));
    assert_eq!(get_user_by_id(&2, &store), Some(bob));
    assert_eq!(get_user_by_id(&3, &store), None);
    assert_eq!(get_user_by_token(&String::from("kc"), &store), None);
}

#[test]
fn an_account_without_key_matches_no_token() {
    let mut store = Store::new();
    create_user(&user("ann", None, None), &mut store).unwrap();
    assert_eq!(get_user_by_token(&String::new(), &store), None);
    assert_eq!(get_user_by_token(&String::from("k"), &store), None);
}

#[test]
fn a_login_is_taken_by_name_or_by_email() {
    let mut store = Store::new();
    create_user(&user("ann", Some("ann@example.org"), None), &mut store).unwrap();
    create_user(&user("bob", None, None), &mut store).unwrap();
    let used = |name: &str, email: Option<&str>| {
        check_if_username_or_email_used(&String::from(name), &email.map(String::from), &store)
    };
    assert_eq!(used("ann", Some("x@example.org")), Ok(true));
    assert_eq!(used("ann", None), Ok(true));
    assert_eq!(used("cat", Some("ann@example.org")), Ok(true));
    assert_eq!(used("cat", Some("cat@example.org")), Ok(false));
    assert_eq!(used("cat", Some("")), Ok(false));
    assert_eq!(used("cat", None), Ok(false));
    assert_eq!(used("bob", None), Ok(true));
}

#[test]
fn key_and_password_are_replaced_for_one_account_only() {
    let mut store = Store::new();
    create_user(&user("ann", None, Some("ka")), &mut store).unwrap();
    create_user(&user("bob", None, Some("kb")), &mut store).unwrap();
    assert_eq!(update_user_token(&2, &String::from("new"), &mut store), Ok(()));
    assert_eq!(get_user_by_token(&String::from("kb"), &store), None);
    assert_eq!(get_user_by_token(&String::from("new"), &store).map(|u| u.id), Some(2));
    assert_eq!(get_user_by_token(&String::from("ka"), &store).map(|u| u.id), Some(1));
    assert_eq!(update_password(&1, &String::from("h2"), &mut store), Ok(()));
    assert_eq!(get_user_by_id(&1, &store).map(|u| u.hashed_password), Some(String::from("h2")));
    assert_eq!(get_user_by_id(&2, &store).map(|u| u.hashed_password), Some(String::from("hash")));
    assert_eq!(update_user_token(&9, &String::from("none"), &mut store), Ok(()));
    assert_eq!(get_user_by_token(&String::from("none"), &store), None);
}

#[test]
fn the_deny_list_matches_whole_addresses() {
    let mut store = Store::new();
    store.ban_ip(String::from("10.0.0.7"));
    store.ban_ip(String::from("::1"));
    assert_eq!(is_ip_banned("10.0.0.7", &store), Ok(true));
    assert_eq!(is_ip_banned("::1", &store), Ok(true));
    assert_eq!(is_ip_banned("10.0.0.70", &store), Ok(false));
    assert_eq!(is_ip_banned("", &store), Ok(false));
}

#[test]
fn files_are_found_by_id_and_by_owner_and_hash() {
    let mut store = Store::new();
    write_file(&file(1, "a", "h1"), &mut store).unwrap();
    write_file(&file(2, "b", "h1"), &mut store).unwrap();
    write_file(&file(1, "c", "h1"), &mut store).unwrap();
    assert_eq!(get_file_by_id(&2, &store).map(|f| f.name), Some(String::from("b")));
    assert_eq!(get_file_by_id(&4, &store), None);
    assert_eq!(get_existing_file_by_hash("h1", &1, &store).map(|f| f.id), Some(1));
    assert_eq!(get_existing_file_by_hash("h1", &2, &store).map(|f| f.id), Some(2));
    assert_eq!(get_existing_file_by_hash("h2", &1, &store), None);
    assert_eq!(get_existing_file_by_hash("h1", &3, &store), None);
}

#[test]
fn a_listing_holds_the_owners_files_in_pages_of_twenty() {
    let mut store = Store::new();
    for i in 0..45 {
        write_file(&file(1, &format!("mine{}", i), "h"), &mut store).unwrap();
        write_file(&file(2, &format!("other{}", i), "h"), &mut store).unwrap();
    }
    let mut owner = user("ann", None, None);
    owner.id = 1;
    let names = |page: i64| -> Vec<String> {
        get_files_for_user(&page, &owner, &store).unwrap().into_iter().map(|f| f.name).collect()
    };
    let expected = |from: usize, to: usize| -> Vec<String> {
        (from..to).map(|i| format!("mine{}", i)).collect()
    };
    assert_eq!(names(1), expected(0, 20));
    assert_eq!(names(2), expected(20, 40));
    assert_eq!(names(3), expected(40, 45));
    assert_eq!(names(4), expected(0, 0));
    assert!(get_files_for_user(&1, &owner, &store).unwrap().iter().all(|f| f.uploaded_by == 1));
    assert_eq!(get_files_for_user(&0, &owner, &store), Err(StoreError::OutOfRange));
    assert_eq!(get_files_for_user(&i64::MAX, &owner, &store), Err(StoreError::OutOfRange));
    assert_eq!(get_number_of_files_for_user(&store, &1), Ok(Count { num_count: 45 }));
    assert_eq!(get_number_of_files_for_user(&store, &3), Ok(Count { num_count: 0 }));
}

#[test]
fn a_window_is_cut_by_limit_and_offset() {
    let mut store = Store::new();
    for i in 0..5 {
        write_file(&file(1, &format!("f{}", i), "h"), &mut store).unwrap();
    }
    let ids = |limit: i64, offset: i64| -> Vec<i64> {
        list_files(1, limit, offset, &store).unwrap().into_iter().map(|f| f.id).collect()
    };
    assert_eq!(ids(2, 0), vec![1, 2]);
    assert_eq!(ids(2, 1), vec![2, 3]);
    assert_eq!(ids(10, 3), vec![4, 5]);
    assert_eq!(ids(0, 0), Vec::<i64>::new());
    assert_eq!(ids(3, 5), Vec::<i64>::new());
    assert_eq!(ids(i64::MAX, i64::MAX), Vec::<i64>::new());
    assert_eq!(list_files(1, -1, 0, &store), Err(StoreError::OutOfRange));
    assert_eq!(list_files(1, 1, -1, &store), Err(StoreError::OutOfRange));
}

#[test]
fn a_deleted_file_is_gone_and_the_others_stay() {
    let mut store = Store::new();
    write_file(&file(1, "a", "h1"), &mut store).unwrap();
    write_file(&file(1, "b", "h2"), &mut store).unwrap();
    write_file(&file(1, "c", "h3"), &mut store).unwrap();
    assert_eq!(delete_file_by_id(&2, &mut store), Ok(()));
    assert_eq!(get_file_by_id(&2, &store), None);
    let ids: Vec<i64> = list_files(1, 20, 0, &store).unwrap().into_iter().map(|f| f.id).collect();
    assert_eq!(ids, vec![1, 3]);
    assert_eq!(delete_file_by_id(&2, &mut store), Ok(()));
    write_file(&file(1, "d", "h4"), &mut store).unwrap();
    assert_eq!(get_file_by_id(&4, &store).map(|f| f.name), Some(String::from("d")));
}

#[test]
fn blobs_are_written_read_and_removed_by_name() {
    let mut blobs = BlobStore::new();
    let a = String::from("a.txt");
    let b = String::from("b.txt");
    assert!(blobs.is_empty());
    assert!(!blobs.contains(&a));
    assert_eq!(blobs.read(&a), None);
    blobs.write(a.clone(), vec![1, 2, 3]);
    blobs.write(b.clone(), vec![4]);
    assert!(!blobs.is_empty());
    assert_eq!(blobs.read(&a), Some(vec![1, 2, 3]));
    assert_eq!(blobs.read(&b), Some(vec![4]));
    blobs.write(a.clone(), vec![9, 9]);
    assert_eq!(blobs.read(&a), Some(vec![9, 9]));
    assert_eq!(blobs.read(&b), Some(vec![4]));
    assert!(blobs.remove(&a));
    assert!(!blobs.contains(&a));
    assert_eq!(blobs.read(&a), None);
    assert!(!blobs.remove(&a));
    assert_eq!(blobs.read(&b), Some(vec![4]));
    assert!(blobs.remove(&b));
    assert!(blobs.is_empty());
}

#[test]
fn a_blob_written_back_after_removal_is_as_before() {
    let mut blobs = BlobStore::new();
    let a = String::from("a.txt");
    let b = String::from("b.txt");
    blobs.write(a.clone(), vec![1, 2, 3]);
    blobs.write(b.clone(), vec![4]);
    let kept = blobs.read(&a).expect("the blob is there");
    assert!(blobs.remove(&a));
    blobs.write(a.clone(), kept);
    assert_eq!(blobs.read(&a), Some(vec![1, 2, 3]));
    assert_eq!(blobs.read(&b), Some(vec![4]));
}
