//! Errors: what a transport call can end in, and the domain errors that
//! callers see.
use vstd::prelude::*;
use crate::text::str_eq;

verus! {

#[derive(Debug, Clone, Copy, PartialEq, Eq, Structural)]
pub enum FairOSUserError {
    Error,
    UsernameAlreadyExists,
    InvalidUsername,
    InvalidPassword,
}

#[derive(Debug, Clone, Copy, PartialEq, Eq, Structural)]
pub enum FairOSPodError {
    Error,
}

#[derive(Debug, Clone, Copy, PartialEq, Eq, Structural)]
pub enum FairOSFileSystemError {
    Error,
}

#[derive(Debug, Clone, Copy, PartialEq, Eq, Structural)]
pub enum FairOSKeyValueError {
    Error,
}

#[derive(Debug, Clone, Copy, PartialEq, Eq, Structural)]
pub enum FairOSDocumentError {
    Error,
}

/// The error a caller of the client sees.
#[derive(Debug, Clone, Copy, PartialEq, Eq, Structural)]
pub enum FairOSError {
    /// The service could not be reached.
    CouldNotConnect,
    User(FairOSUserError),
    Pod(FairOSPodError),
    FileSystem(FairOSFileSystemError),
    KeyValue(FairOSKeyValueError),
    Document(FairOSDocumentError),
    /// A reply did not have the shape its endpoint promises.
    DecodeFailed,
}

/// How one call to the service ended, when it did not succeed.
#[derive(Debug)]
pub enum RequestError {
    /// The connection could not be made.
    CouldNotConnect,
    /// The service answered with a status outside 200..300 and this
    /// message envelope.
    Rejected { message: String, code: u32 },
    /// The reply did not decode as the expected shape.
    DecodeFailed,
}

/// The area of the service a call belongs to; it picks the generic error.
#[derive(Debug, Clone, Copy, PartialEq, Eq, Structural)]
pub enum Domain {
    User,
    Pod,
    FileSystem,
    KeyValue,
    Document,
}

/// The generic error of a domain.
pub open spec fn generic_error(d: Domain) -> FairOSError {
    match d {
        Domain::User => FairOSError::User(FairOSUserError::Error),
        Domain::Pod => FairOSError::Pod(FairOSPodError::Error),
        Domain::FileSystem => FairOSError::FileSystem(FairOSFileSystemError::Error),
        Domain::KeyValue => FairOSError::KeyValue(FairOSKeyValueError::Error),
        Domain::Document => FairOSError::Document(FairOSDocumentError::Error),
    }
}

/// The error a failed call of `d` surfaces as, where no message is special.
pub open spec fn domain_error_of(d: Domain, e: RequestError) -> FairOSError {
    match e {
        RequestError::CouldNotConnect => FairOSError::CouldNotConnect,
        RequestError::Rejected { .. } => generic_error(d),
        RequestError::DecodeFailed => FairOSError::DecodeFailed,
    }
}

/// The message the service sends when a sign-up names a taken username.
pub open spec fn username_taken_message() -> Seq<char> {
    "user signup: user name already present"@
}

/// The message the service sends when a login names an unknown user.
pub open spec fn invalid_username_message() -> Seq<char> {
    "user login: invalid user name"@
}

/// The message the service sends when a login has a wrong password.
pub open spec fn invalid_password_message() -> Seq<char> {
    "user login: invalid password"@
}

/// The error of a failed sign-up.
pub open spec fn signup_error_of(e: RequestError) -> FairOSError {
    match e {
        RequestError::Rejected { message, .. } => if message@ == username_taken_message() {
            FairOSError::User(FairOSUserError::UsernameAlreadyExists)
        } else {
            FairOSError::User(FairOSUserError::Error)
        },
        _ => domain_error_of(Domain::User, e),
    }
}

/// The error of a failed login.
pub open spec fn login_error_of(e: RequestError) -> FairOSError {
    match e {
        RequestError::Rejected { message, .. } => if message@ == invalid_username_message() {
            FairOSError::User(FairOSUserError::InvalidUsername)
        } else if message@ == invalid_password_message() {
            FairOSError::User(FairOSUserError::InvalidPassword)
        } else {
            FairOSError::User(FairOSUserError::Error)
        },
        _ => domain_error_of(Domain::User, e),
    }
}

fn generic(d: Domain) -> (r: FairOSError)
    ensures
        r == generic_error(d),
{
    match d {
        Domain::User => FairOSError::User(FairOSUserError::Error),
        Domain::Pod => FairOSError::Pod(FairOSPodError::Error),
        Domain::FileSystem => FairOSError::FileSystem(FairOSFileSystemError::Error),
        Domain::KeyValue => FairOSError::KeyValue(FairOSKeyValueError::Error),
        Domain::Document => FairOSError::Document(FairOSDocumentError::Error),
    }
}

/// Maps a failed call to the error its domain reports: an unreachable
/// service stays distinct from a rejection.
pub fn domain_error(d: Domain, e: &RequestError) -> (r: FairOSError)
    ensures
        r == domain_error_of(d, *e),
{
    match e {
        RequestError::CouldNotConnect => FairOSError::CouldNotConnect,
        RequestError::Rejected { .. } => generic(d),
        RequestError::DecodeFailed => FairOSError::DecodeFailed,
    }
}

/// Maps a failed sign-up; a taken username has an error of its own.
pub fn signup_error(e: &RequestError) -> (r: FairOSError)
    ensures
        r == signup_error_of(*e),
{
    match e {
        RequestError::Rejected { message, .. } => {
            if str_eq(message.as_str(), "user signup: user name already present") {
                FairOSError::User(FairOSUserError::UsernameAlreadyExists)
            } else {
                FairOSError::User(FairOSUserError::Error)
            }
        },
        _ => domain_error(Domain::User, e),
    }
}

/// Maps a failed login; an unknown user and a wrong password have errors
/// of their own.
pub fn login_error(e: &RequestError) -> (r: FairOSError)
    ensures
        r == login_error_of(*e),
{
    match e {
        RequestError::Rejected { message, .. } => {
            if str_eq(message.as_str(), "user login: invalid user name") {
                FairOSError::User(FairOSUserError::InvalidUsername)
            } else if str_eq(message.as_str(), "user login: invalid password") {
                FairOSError::User(FairOSUserError::InvalidPassword)
            } else {
                FairOSError::User(FairOSUserError::Error)
            }
        },
        _ => domain_error(Domain::User, e),
    }
}

} // verus!
