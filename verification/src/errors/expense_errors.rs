//! Failures of the expense service.

use vstd::prelude::*;
use crate::errors::auth_errors::ErrorResponse;

verus! {

/// Why an expense request failed.
#[derive(Debug)]
pub enum ExpenseError {
    CategoryIDRequired,
    DescriptionRequired,
    DescriptionTooLong,
    /// The user has no expense of that identifier.
    ExpenseNotFound,
    /// The expense names a category that does not exist.
    ForeignKeyNotFound,
    /// A store or a codec failed; the cause is kept for the log.
    Internal(String),
    InvalidAmountValue,
    RequiredFieldMissing,
}

impl ExpenseError {
    /// The HTTP status that reports the failure.
    pub open spec fn status_code_spec(&self) -> u16 {
        match *self {
            ExpenseError::Internal(_) => 500,
            ExpenseError::ExpenseNotFound => 404,
            _ => 400,
        }
    }

    /// The text shown to the caller.
    pub open spec fn message_spec(&self) -> Seq<char> {
        match *self {
            ExpenseError::CategoryIDRequired => "category id required"@,
            ExpenseError::DescriptionRequired => "description required"@,
            ExpenseError::DescriptionTooLong => "description too long"@,
            ExpenseError::ExpenseNotFound => "expense not found"@,
            ExpenseError::ForeignKeyNotFound => "foreign key not found"@,
            ExpenseError::Internal(_) => "internal server error"@,
            ExpenseError::InvalidAmountValue => "invalid amount value"@,
            ExpenseError::RequiredFieldMissing => "required field missing"@,
        }
    }

    /// Wraps the cause of a failure that is not the caller's doing.
    pub fn internal(cause: String) -> (e: Self)
        ensures
            e == ExpenseError::Internal(cause),
    {
        ExpenseError::Internal(cause)
    }

    /// Computes the HTTP status that reports the failure.
    pub fn status_code(&self) -> (code: u16)
        ensures
            code == self.status_code_spec(),
    {
        match self {
            ExpenseError::Internal(_) => 500,
            ExpenseError::ExpenseNotFound => 404,
            _ => 400,
        }
    }

    /// Writes the text shown to the caller.
    pub fn message(&self) -> (text: String)
        ensures
            text@ == self.message_spec(),
    {
        match self {
            ExpenseError::CategoryIDRequired => String::from_str("category id required"),
            ExpenseError::DescriptionRequired => String::from_str("description required"),
            ExpenseError::DescriptionTooLong => String::from_str("description too long"),
            ExpenseError::ExpenseNotFound => String::from_str("expense not found"),
            ExpenseError::ForeignKeyNotFound => String::from_str("foreign key not found"),
            ExpenseError::Internal(_) => String::from_str("internal server error"),
            ExpenseError::InvalidAmountValue => String::from_str("invalid amount value"),
            ExpenseError::RequiredFieldMissing => String::from_str("required field missing"),
        }
    }

    /// Builds the status and the body of the error response.
    pub fn error_response(&self) -> (r: (u16, ErrorResponse))
        ensures
            r.0 == self.status_code_spec(),
            r.1.message@ == self.message_spec(),
    {
        (self.status_code(), ErrorResponse { message: self.message() })
    }
}

} // verus!
