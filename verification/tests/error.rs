use filehost::error::{
    handle_error, BadRequest, Banned, ErrorKind, InternalError, LoginTaken, NotFound,
    Unauthorized,
};

#[test]
fn each_rejection_has_its_status_code() {
    assert_eq!(ErrorKind::BadRequest.status_code(), 400);
    assert_eq!(ErrorKind::Unauthorized.status_code(), 401);
    assert_eq!(ErrorKind::Banned.status_code(), 403);
    assert_eq!(ErrorKind::NotFound.status_code(), 404);
    assert_eq!(ErrorKind::LoginTaken.status_code(), 403);
    assert_eq!(ErrorKind::PayloadTooLarge.status_code(), 413);
    assert_eq!(ErrorKind::InternalError.status_code(), 500);
}

#[test]
fn each_rejection_has_its_message() {
    assert_eq!(handle_error(ErrorKind::NotFound), (404, "Resource not found"));
    assert_eq!(handle_error(ErrorKind::Unauthorized), (401, "Not allowed"));
    assert_eq!(
        handle_error(ErrorKind::BadRequest),
        (400, "There is a problem with uploading requested data. Please try again")
    );
    assert_eq!(handle_error(ErrorKind::LoginTaken), (403, "Username has already been taken"));
    assert_eq!(
        handle_error(ErrorKind::Banned),
        (403, "Your IP has been banned from uploading files")
    );
    assert_eq!(
        handle_error(ErrorKind::PayloadTooLarge),
        (413, "File is too big to be uploaded. Please try a smaller file")
    );
    assert_eq!(handle_error(ErrorKind::InternalError), (500, "Internal server error"));
}

#[test]
fn markers_name_their_kind() {
    assert_eq!(Unauthorized.kind(), ErrorKind::Unauthorized);
    assert_eq!(NotFound.kind(), ErrorKind::NotFound);
    assert_eq!(InternalError.kind(), ErrorKind::InternalError);
    assert_eq!(BadRequest.kind(), ErrorKind::BadRequest);
    assert_eq!(LoginTaken.kind(), ErrorKind::LoginTaken);
    assert_eq!(Banned.kind(), ErrorKind::Banned);
}

#[test]
fn only_storage_failures_are_server_errors() {
    let all = [
        ErrorKind::BadRequest,
        ErrorKind::Unauthorized,
        ErrorKind::Banned,
        ErrorKind::NotFound,
        ErrorKind::LoginTaken,
        ErrorKind::PayloadTooLarge,
        ErrorKind::InternalError,
    ];
    for kind in all {
        let code = kind.status_code();
        assert!((400..600).contains(&code));
        assert_eq!(code >= 500, kind == ErrorKind::InternalError);
    }
}
