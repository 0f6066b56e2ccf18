//! Failures of the plain user service.

use vstd::prelude::*;
use crate::errors::auth_errors::ErrorResponse;

verus! {

/// Why the creation of a user failed.
#[derive(Debug)]
pub enum UserError {
    /// The email is registered already.
    DuplicateEmail,
    /// A store failed, or the password could not be hashed; the cause is
    /// kept for the log.
    Internal(String),
    InvalidEmail,
    InvalidNameLength,
    NameRequired,
    WeakPassword,
}

impl UserError {
    /// The HTTP status that reports the failure.
    pub open spec fn status_code_spec(&self) -> u16 {
        match *self {
            UserError::DuplicateEmail => 409,
            UserError::Internal(_) => 500,
            _ => 400,
        }
    }

    /// The text shown to the caller. The cause of an internal failure is
    /// not part of it.
    pub open spec fn message_spec(&self) -> Seq<char> {
        match *self {
            UserError::DuplicateEmail => "Email is already existing"@,
            UserError::Internal(_) => "Internal Server Error"@,
            UserError::InvalidEmail => "Please enter a valid email."@,
            UserError::InvalidNameLength => "Name must be at least 3 characters."@,
            UserError::NameRequired => "Name field is required."@,
            UserError::WeakPassword => "Your password is too weak."@,
        }
    }

    /// Computes the HTTP status that reports the failure.
    pub fn status_code(&self) -> (code: u16)
        ensures
            code == self.status_code_spec(),
    {
        match self {
            UserError::DuplicateEmail => 409,
            UserError::Internal(_) => 500,
            _ => 400,
        }
    }

    /// Builds the status and the body of the error response.
    pub fn error_response(&self) -> (r: (u16, ErrorResponse))
        ensures
            r.0 == self.status_code_spec(),
            r.1.message@ == self.message_spec(),
    {
        (self.status_code(), ErrorResponse { message: self.message() })
    }

    /// Writes the text shown to the caller.
    pub fn message(&self) -> (text: String)
        ensures
            text@ == self.message_spec(),
    {
        match self {
            UserError::DuplicateEmail => String::from_str("Email is already existing"),
            UserError::Internal(_) => String::from_str("Internal Server Error"),
            UserError::InvalidEmail => String::from_str("Please enter a valid email."),
            UserError::InvalidNameLength => String::from_str(
                "Name must be at least 3 characters.",
            ),
            UserError::NameRequired => String::from_str("Name field is required."),
            UserError::WeakPassword => String::from_str("Your password is too weak."),
        }
    }
}

} // verus!
