use vstd::prelude::*;

verus! {

/// The closed set of failures the service can surface. Variants that wrap a
/// failure of the backing store or of a helper carry its text, which is
/// meant for the log only and never reaches a reply.
#[derive(Debug, Clone, PartialEq, Eq)]
pub enum Error {
    DBPoolError(String),
    DBQueryError(String),
    DBInitError(String),
    DBInitErrorTest,
    EncryptPasswordError,
    VerifyPasswordError,
    ReadFileError(String),
    WrongCredentialsError,
    JWTTokenError,
    JWTTokenCreationError,
    NoAuthHeaderError,
    InvalidAuthHeaderError,
    NoPermissionError,
    UserNotEnabledError,
    NotificationError,
}

/// Why a request was turned away, as the routing layer reports it.
#[derive(Debug, Clone, PartialEq, Eq)]
pub enum Rejection {
    /// No route matched.
    NotFound,
    /// The body could not be read as the expected document.
    InvalidBody,
    /// A failure raised by the service itself.
    App(Error),
    /// A route matched the path but not the method.
    MethodNotAllowed,
    /// Anything else.
    Unhandled,
}

/// The status and the generic message sent back for a rejection.
#[derive(Debug, Clone, PartialEq, Eq)]
pub struct ErrorReply {
    pub status: u16,
    pub message: String,
}

pub open spec fn app_status(e: Error) -> u16 {
    match e {
        Error::DBQueryError(_) => 400,
        Error::WrongCredentialsError => 400,
        Error::JWTTokenCreationError => 500,
        Error::NoAuthHeaderError => 401,
        Error::InvalidAuthHeaderError => 401,
        Error::NoPermissionError => 403,
        Error::JWTTokenError => 401,
        Error::UserNotEnabledError => 400,
        _ => 500,
    }
}

pub open spec fn app_message(e: Error) -> Seq<char> {
    match e {
        Error::DBQueryError(_) => "Could not Execute request"@,
        Error::WrongCredentialsError => "Credentials not valid."@,
        Error::JWTTokenCreationError => "Internal Server Error"@,
        Error::NoAuthHeaderError => "Unauthorized"@,
        Error::InvalidAuthHeaderError => "Unauthorized"@,
        Error::NoPermissionError => "Forbidden"@,
        Error::JWTTokenError => "Unauthorized"@,
        Error::UserNotEnabledError => "User not enabled"@,
        _ => "Internal Server Error"@,
    }
}

pub open spec fn rejection_status(r: Rejection) -> u16 {
    match r {
        Rejection::NotFound => 404,
        Rejection::InvalidBody => 400,
        Rejection::App(e) => app_status(e),
        Rejection::MethodNotAllowed => 405,
        Rejection::Unhandled => 500,
    }
}

pub open spec fn rejection_message(r: Rejection) -> Seq<char> {
    match r {
        Rejection::NotFound => "Not Found"@,
        Rejection::InvalidBody => "Invalid Body"@,
        Rejection::App(e) => app_message(e),
        Rejection::MethodNotAllowed => "Method Not Allowed"@,
        Rejection::Unhandled => "Internal Server Error"@,
    }
}

fn reply(status: u16, message: &str) -> (r: ErrorReply)
    ensures
        r.status == status,
        r.message@ == message@,
{
    ErrorReply { status, message: message.to_owned() }
}

/// Maps a rejection to the status and the generic message of the reply.
/// The message is fixed per kind: no detail carried by the failure is echoed.
pub fn handle_rejection(r: &Rejection) -> (out: ErrorReply)
    ensures
        out.status == rejection_status(*r),
        out.message@ == rejection_message(*r),
{
    match r {
        Rejection::NotFound => reply(404, "Not Found"),
        Rejection::InvalidBody => reply(400, "Invalid Body"),
        Rejection::MethodNotAllowed => reply(405, "Method Not Allowed"),
        Rejection::Unhandled => reply(500, "Internal Server Error"),
        Rejection::App(e) => match e {
            Error::DBQueryError(_) => reply(400, "Could not Execute request"),
            Error::WrongCredentialsError => reply(400, "Credentials not valid."),
            Error::JWTTokenCreationError => reply(500, "Internal Server Error"),
            Error::NoAuthHeaderError => reply(401, "Unauthorized"),
            Error::InvalidAuthHeaderError => reply(401, "Unauthorized"),
            Error::NoPermissionError => reply(403, "Forbidden"),
            Error::JWTTokenError => reply(401, "Unauthorized"),
            Error::UserNotEnabledError => reply(400, "User not enabled"),
            _ => reply(500, "Internal Server Error"),
        },
    }
}

} // verus!
