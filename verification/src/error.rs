//! The closed set of error kinds that may cross the boundary of the service,
//! and the status each is reported with.

use vstd::prelude::*;

verus! {

/// What went wrong, as a caller may learn it.
#[derive(Clone, Copy, Debug, PartialEq, Eq, Structural)]
pub enum ErrorKind {
    /// Malformed or missing input.
    Validation,
    /// A recipient or a record is absent.
    NotFound,
    /// Wrong recipient or wrong password.
    Authorization,
    /// Decryption or verification failed.
    Crypto,
    /// The record is past its lifetime, or already consumed.
    Expired,
    /// The store could not take the change.
    Storage,
}

/// The HTTP status that goes with a kind of error.
pub open spec fn status_of(kind: ErrorKind) -> u16 {
    match kind {
        ErrorKind::Validation => 400,
        ErrorKind::NotFound => 404,
        ErrorKind::Authorization => 403,
        ErrorKind::Crypto => 500,
        ErrorKind::Expired => 410,
        ErrorKind::Storage => 500,
    }
}

impl ErrorKind {
    /// The HTTP status this kind is reported with.
    pub fn status(&self) -> (code: u16)
        ensures
            code == status_of(*self),
    {
        match self {
            ErrorKind::Validation => 400,
            ErrorKind::NotFound => 404,
            ErrorKind::Authorization => 403,
            ErrorKind::Crypto => 500,
            ErrorKind::Expired => 410,
            ErrorKind::Storage => 500,
        }
    }
}

/// Failures of the password and token helpers.
#[derive(Clone, Copy, Debug, PartialEq, Eq, Structural)]
pub enum ErrorMessage {
    EmptyPassword,
    ExceededMaxPasswordLength(usize),
    HashingError,
    InvalidHashFormat,
    InvalidToken,
}

/// The text of a message.
pub open spec fn message_of(message: ErrorMessage) -> Seq<char> {
    match message {
        ErrorMessage::EmptyPassword => "Password cannot be empty"@,
        ErrorMessage::ExceededMaxPasswordLength(_) => "Password is longer than the limit allows"@,
        ErrorMessage::HashingError => "Error while hashing password"@,
        ErrorMessage::InvalidHashFormat => "Invalid password hash format"@,
        ErrorMessage::InvalidToken => "Authentication token is invalid or expired"@,
    }
}

impl ErrorMessage {
    /// The text of this message.
    pub fn message(&self) -> (text: String)
        ensures
            text@ == message_of(*self),
    {
        match self {
            ErrorMessage::EmptyPassword => "Password cannot be empty".to_owned(),
            ErrorMessage::ExceededMaxPasswordLength(_) => {
                "Password is longer than the limit allows".to_owned()
            },
            ErrorMessage::HashingError => "Error while hashing password".to_owned(),
            ErrorMessage::InvalidHashFormat => "Invalid password hash format".to_owned(),
            ErrorMessage::InvalidToken => "Authentication token is invalid or expired".to_owned(),
        }
    }
}

/// An error as the HTTP layer reports it: a message and a status.
#[derive(Debug)]
pub struct HttpError {
    pub message: String,
    pub status: u16,
}

impl HttpError {
    /// A `400 Bad Request` with the given message.
    pub fn bad_request(message: String) -> (e: HttpError)
        ensures
            e.message@ == message@,
            e.status == 400,
    {
        HttpError { message, status: 400 }
    }

    /// A `401 Unauthorized` with the given message.
    pub fn unauthorized(message: String) -> (e: HttpError)
        ensures
            e.message@ == message@,
            e.status == 401,
    {
        HttpError { message, status: 401 }
    }

    /// A `500 Internal Server Error` with the given message.
    pub fn server_error(message: String) -> (e: HttpError)
        ensures
            e.message@ == message@,
            e.status == 500,
    {
        HttpError { message, status: 500 }
    }
}

} // verus!
