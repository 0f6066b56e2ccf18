//! Failures of registration, login and session renewal.

use vstd::prelude::*;

verus! {

/// Why a registration or login request was refused before any store was
/// asked.
#[derive(Clone, Copy, Debug, PartialEq, Eq, Structural)]
pub enum ValidationError {
    InvalidEmail,
    NameRequired,
    NameTooLong,
    NameTooShort,
    PasswordRequired,
    PasswordTooLong,
    WeakPassword,
}

impl ValidationError {
    /// The text shown to the caller.
    pub open spec fn message_spec(self) -> Seq<char> {
        match self {
            ValidationError::InvalidEmail => "invalid email"@,
            ValidationError::NameRequired => "name required"@,
            ValidationError::NameTooLong => "name too long"@,
            ValidationError::NameTooShort => "name too short"@,
            ValidationError::PasswordRequired => "password required"@,
            ValidationError::PasswordTooLong => "password too long"@,
            ValidationError::WeakPassword => "weak password"@,
        }
    }

    /// Writes the text shown to the caller.
    pub fn message(&self) -> (text: String)
        ensures
            text@ == self.message_spec(),
    {
        match self {
            ValidationError::InvalidEmail => String::from_str("invalid email"),
            ValidationError::NameRequired => String::from_str("name required"),
            ValidationError::NameTooLong => String::from_str("name too long"),
            ValidationError::NameTooShort => String::from_str("name too short"),
            ValidationError::PasswordRequired => String::from_str("password required"),
            ValidationError::PasswordTooLong => String::from_str("password too long"),
            ValidationError::WeakPassword => String::from_str("weak password"),
        }
    }
}

/// Why a registration, a login or a renewal failed.
#[derive(Debug)]
pub enum AuthError {
    /// The request was malformed.
    Validation(ValidationError),
    /// A store or a codec failed; the cause is kept for the log and never
    /// shown to the caller.
    Internal(String),
    /// No such user, or a wrong password.
    InvalidCredentials,
    /// The email is registered already.
    DuplicateEmail,
    /// The credential is missing, invalid, expired or consumed.
    Unauthorized,
}

/// The body of an error response.
#[derive(Debug)]
pub struct ErrorResponse {
    pub message: String,
}

impl AuthError {
    /// The HTTP status that reports the failure.
    pub open spec fn status_code_spec(&self) -> u16 {
        match *self {
            AuthError::DuplicateEmail => 409,
            AuthError::Unauthorized => 401,
            AuthError::Internal(_) => 500,
            _ => 400,
        }
    }

    /// The text shown to the caller.
    pub open spec fn message_spec(&self) -> Seq<char> {
        match *self {
            AuthError::Validation(e) => e.message_spec(),
            AuthError::Internal(_) => "internal server error"@,
            AuthError::InvalidCredentials => "invalid credentials"@,
            AuthError::DuplicateEmail => "duplicate email"@,
            AuthError::Unauthorized => "unauthorized"@,
        }
    }

    /// Wraps the cause of a failure that is not the caller's doing.
    pub fn internal(cause: String) -> (e: Self)
        ensures
            e == AuthError::Internal(cause),
    {
        AuthError::Internal(cause)
    }

    /// Computes the HTTP status that reports the failure.
    pub fn status_code(&self) -> (code: u16)
        ensures
            code == self.status_code_spec(),
    {
        match self {
            AuthError::DuplicateEmail => 409,
            AuthError::Unauthorized => 401,
            AuthError::Internal(_) => 500,
            _ => 400,
        }
    }

    /// Writes the text shown to the caller. The cause of an internal failure
    /// is not part of it.
    pub fn message(&self) -> (text: String)
        ensures
            text@ == self.message_spec(),
    {
        match self {
            AuthError::Validation(e) => e.message(),
            AuthError::Internal(_) => String::from_str("internal server error"),
            AuthError::InvalidCredentials => String::from_str("invalid credentials"),
            AuthError::DuplicateEmail => String::from_str("duplicate email"),
            AuthError::Unauthorized => String::from_str("unauthorized"),
        }
    }

    /// Builds the status and the body of the error response.
    pub fn error_response(&self) -> (r: (u16, ErrorResponse))
        ensures
            r.0 == self.status_code_spec(),
            r.1.message@ == self.message_spec(),
    {
        (self.status_code(), ErrorResponse { message: self.message() })
    }
}

} // verus!
