//! Failures of the category service.

use vstd::prelude::*;
use crate::errors::auth_errors::ErrorResponse;

verus! {

/// Why a category request failed.
#[derive(Debug)]
pub enum CategoryError {
    /// A store or a codec failed; the cause is kept for the log.
    Internal(String),
    /// The user has a category of that name already.
    NameExisting,
    NameRequired,
    NameTooLong,
    NameTooShort,
}

impl CategoryError {
    /// The HTTP status that reports the failure.
    pub open spec fn status_code_spec(&self) -> u16 {
        match *self {
            CategoryError::Internal(_) => 500,
            CategoryError::NameExisting => 409,
            _ => 400,
        }
    }

    /// The text shown to the caller.
    pub open spec fn message_spec(&self) -> Seq<char> {
        match *self {
            CategoryError::Internal(_) => "internal server error"@,
            CategoryError::NameExisting => "name already existing"@,
            CategoryError::NameRequired => "name required"@,
            CategoryError::NameTooLong => "name too long"@,
            CategoryError::NameTooShort => "name too short"@,
        }
    }

    /// Wraps the cause of a failure that is not the caller's doing.
    pub fn internal(cause: String) -> (e: Self)
        ensures
            e == CategoryError::Internal(cause),
    {
        CategoryError::Internal(cause)
    }

    /// Computes the HTTP status that reports the failure.
    pub fn status_code(&self) -> (code: u16)
        ensures
            code == self.status_code_spec(),
    {
        match self {
            CategoryError::Internal(_) => 500,
            CategoryError::NameExisting => 409,
            _ => 400,
        }
    }

    /// Writes the text shown to the caller.
    pub fn message(&self) -> (text: String)
        ensures
            text@ == self.message_spec(),
    {
        match self {
            CategoryError::Internal(_) => String::from_str("internal server error"),
            CategoryError::NameExisting => String::from_str("name already existing"),
            CategoryError::NameRequired => String::from_str("name required"),
            CategoryError::NameTooLong => String::from_str("name too long"),
            CategoryError::NameTooShort => String::from_str("name too short"),
        }
    }

    /// Builds the status and the body of the error response.
    pub fn error_response(&self) -> (r: (u16, ErrorResponse))
        ensures
            r.0 == self.status_code_spec(),
            r.1.message@ == self.message_spec(),
    {
        (self.status_code(), ErrorResponse { message: self.message() })
    }
}

} // verus!
