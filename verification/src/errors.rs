//! The errors the service reports, and the text each one is shown with.
use vstd::prelude::*;

verus! {

/// What failed inside the service; every kind is shown to clients as
/// `"Internal server error"`.
#[derive(Debug, Clone, Copy, PartialEq, Eq, Structural)]
pub enum InternalError {
    Image,
    Build,
    Io,
    Pool,
    DeadPoolPool,
    DieselResult,
}

/// The errors the service reports to its clients.
#[derive(Debug, Clone, Copy, PartialEq, Eq, Structural)]
pub enum PhotoError {
    UserAccountAlreadyExists,
    Internal(InternalError),
    UserNotFound,
    InvalidCredentials,
    EmailNotFound,
    DatabaseError,
    InvalidExtension,
    InvalidUserId,
}

/// The text shown for each error.
pub open spec fn photo_error_text(e: PhotoError) -> Seq<char> {
    match e {
        PhotoError::UserAccountAlreadyExists => "User account already exists"@,
        PhotoError::Internal(_) => "Internal server error"@,
        PhotoError::UserNotFound => "User Not Found"@,
        PhotoError::InvalidCredentials => "Invalid Credentials"@,
        PhotoError::EmailNotFound => "Email Not Found"@,
        PhotoError::DatabaseError => "Database Error"@,
        PhotoError::InvalidExtension => "InvalidExtension"@,
        PhotoError::InvalidUserId => "InvalidUserId"@,
    }
}

impl InternalError {
    /// The text shown for an internal error (also what it serializes to).
    pub fn message(&self) -> (s: &'static str)
        ensures
            s@ == "Internal server error"@,
    {
        "Internal server error"
    }
}

impl PhotoError {
    /// The text shown for this error.
    pub fn message(&self) -> (s: &'static str)
        ensures
            s@ == photo_error_text(*self),
    {
        match self {
            PhotoError::UserAccountAlreadyExists => "User account already exists",
            PhotoError::Internal(_) => "Internal server error",
            PhotoError::UserNotFound => "User Not Found",
            PhotoError::InvalidCredentials => "Invalid Credentials",
            PhotoError::EmailNotFound => "Email Not Found",
            PhotoError::DatabaseError => "Database Error",
            PhotoError::InvalidExtension => "InvalidExtension",
            PhotoError::InvalidUserId => "InvalidUserId",
        }
    }
}

impl From<InternalError> for PhotoError {
    fn from(e: InternalError) -> (r: PhotoError) {
        PhotoError::Internal(e)
    }
}

impl vstd::std_specs::convert::FromSpecImpl<InternalError> for PhotoError {
    open spec fn obeys_from_spec() -> bool {
        true
    }

    open spec fn from_spec(e: InternalError) -> PhotoError {
        PhotoError::Internal(e)
    }
}

} // verus!
