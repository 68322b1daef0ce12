//! The closed set of ways in which a request can be turned down, and how
//! each is shown to the client.

use vstd::prelude::*;

verus! {

/// Why a request was rejected.
#[derive(Clone, Copy, Debug, PartialEq, Eq, Structural)]
pub enum ErrorKind {
    /// Malformed upload, or an upload without a usable `file` part.
    BadRequest,
    /// Missing or unknown token, wrong password, or someone else's resource.
    Unauthorized,
    /// The source address is on the deny list.
    Banned,
    /// The file that the request names does not exist.
    NotFound,
    /// The username or the email is already registered.
    LoginTaken,
    /// The upload is larger than the configured maximum.
    PayloadTooLarge,
    /// The metadata store or the blob store failed.
    InternalError,
}

impl ErrorKind {
    /// HTTP status under which the rejection is reported.
    pub open spec fn spec_status_code(self) -> u16 {
        match self {
            ErrorKind::BadRequest => 400,
            ErrorKind::Unauthorized => 401,
            ErrorKind::Banned => 403,
            ErrorKind::NotFound => 404,
            ErrorKind::LoginTaken => 403,
            ErrorKind::PayloadTooLarge => 413,
            ErrorKind::InternalError => 500,
        }
    }

    /// Text sent to the client. It never carries any detail of the failure.
    pub open spec fn spec_message(self) -> Seq<char> {
        match self {
            ErrorKind::BadRequest =>
                "There is a problem with uploading requested data. Please try again"@,
            ErrorKind::Unauthorized => "Not allowed"@,
            ErrorKind::Banned => "Your IP has been banned from uploading files"@,
            ErrorKind::NotFound => "Resource not found"@,
            ErrorKind::LoginTaken => "Username has already been taken"@,
            ErrorKind::PayloadTooLarge =>
                "File is too big to be uploaded. Please try a smaller file"@,
            ErrorKind::InternalError => "Internal server error"@,
        }
    }

    #[verifier::when_used_as_spec(spec_status_code)]
    pub fn status_code(self) -> (code: u16)
        ensures
            code == self.spec_status_code(),
    {
        match self {
            ErrorKind::BadRequest => 400,
            ErrorKind::Unauthorized => 401,
            ErrorKind::Banned => 403,
            ErrorKind::NotFound => 404,
            ErrorKind::LoginTaken => 403,
            ErrorKind::PayloadTooLarge => 413,
            ErrorKind::InternalError => 500,
        }
    }

    pub fn message(self) -> (text: &'static str)
        ensures
            text@ == self.spec_message(),
    {
        match self {
            ErrorKind::BadRequest =>
                "There is a problem with uploading requested data. Please try again",
            ErrorKind::Unauthorized => "Not allowed",
            ErrorKind::Banned => "Your IP has been banned from uploading files",
            ErrorKind::NotFound => "Resource not found",
            ErrorKind::LoginTaken => "Username has already been taken",
            ErrorKind::PayloadTooLarge =>
                "File is too big to be uploaded. Please try a smaller file",
            ErrorKind::InternalError => "Internal server error",
        }
    }
}

/// Status code and message with which a rejection leaves the service.
pub fn handle_error(err: ErrorKind) -> (reply: (u16, &'static str))
    ensures
        reply.0 == err.spec_status_code(),
        reply.1@ == err.spec_message(),
{
    (err.status_code(), err.message())
}

/// Every rejection is reported as a client error or a server error, and
/// only a storage failure is reported as the server's.
pub proof fn lemma_status_classes(err: ErrorKind)
    ensures
        400 <= err.spec_status_code() < 600,
        err.spec_status_code() >= 500 <==> err == ErrorKind::InternalError,
{
}

/// Marker of a request without a valid identity or without the right to
/// the resource.
#[derive(Clone, Copy, Debug, PartialEq, Eq, Structural)]
pub struct Unauthorized;

/// Marker of a request for a file that does not exist.
#[derive(Clone, Copy, Debug, PartialEq, Eq, Structural)]
pub struct NotFound;

/// Marker of a storage failure.
#[derive(Clone, Copy, Debug, PartialEq, Eq, Structural)]
pub struct InternalError;

/// Marker of a malformed upload.
#[derive(Clone, Copy, Debug, PartialEq, Eq, Structural)]
pub struct BadRequest;

/// Marker of a registration under a name or email already in use.
#[derive(Clone, Copy, Debug, PartialEq, Eq, Structural)]
pub struct LoginTaken;

/// Marker of an upload from a denied address.
#[derive(Clone, Copy, Debug, PartialEq, Eq, Structural)]
pub struct Banned;

impl Unauthorized {
    pub fn kind(&self) -> (kind: ErrorKind)
        ensures
            kind == ErrorKind::Unauthorized,
    {
        ErrorKind::Unauthorized
    }
}

impl NotFound {
    pub fn kind(&self) -> (kind: ErrorKind)
        ensures
            kind == ErrorKind::NotFound,
    {
        ErrorKind::NotFound
    }
}

impl InternalError {
    pub fn kind(&self) -> (kind: ErrorKind)
        ensures
            kind == ErrorKind::InternalError,
    {
        ErrorKind::InternalError
    }
}

impl BadRequest {
    pub fn kind(&self) -> (kind: ErrorKind)
        ensures
            kind == ErrorKind::BadRequest,
    {
        ErrorKind::BadRequest
    }
}

impl LoginTaken {
    pub fn kind(&self) -> (kind: ErrorKind)
        ensures
            kind == ErrorKind::LoginTaken,
    {
        ErrorKind::LoginTaken
    }
}

impl Banned {
    pub fn kind(&self) -> (kind: ErrorKind)
        ensures
            kind == ErrorKind::Banned,
    {
        ErrorKind::Banned
    }
}

} // verus!
