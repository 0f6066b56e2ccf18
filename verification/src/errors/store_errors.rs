//! Failures of the relational store, as far as the services tell them apart.

use vstd::prelude::*;

verus! {

/// How a missing row is described in the log.
pub const ROW_NOT_FOUND: &'static str =
    "no rows returned by a query that expected to return at least one row";

/// Why a statement against the relational store failed.
#[derive(Debug)]
pub enum DbFailure {
    /// The statement was to return a row and found none.
    RowNotFound,
    /// The database refused the statement; `code` is its SQLSTATE code, if it
    /// gave one.
    Database { code: Option<String>, message: String },
    /// Any other failure: connection, protocol, decoding.
    Other { message: String },
}

/// The constraint that a database refusal names.
#[derive(Clone, Copy, Debug, PartialEq, Eq, Structural)]
pub enum Violation {
    /// Code 23505: a value that must be unique is there already.
    Unique,
    /// Code 23503: a referenced row does not exist.
    ForeignKey,
    /// Code 23502: a required column was left empty.
    NotNull,
    /// No refusal, or one for a reason that the services do not tell apart.
    Unclassified,
}

/// The constraint that a SQLSTATE code stands for.
pub open spec fn violation_of_code(code: Seq<char>) -> Violation {
    if code == "23505"@ {
        Violation::Unique
    } else if code == "23503"@ {
        Violation::ForeignKey
    } else if code == "23502"@ {
        Violation::NotNull
    } else {
        Violation::Unclassified
    }
}

impl DbFailure {
    /// The constraint that this failure names.
    pub open spec fn violation_spec(&self) -> Violation {
        match *self {
            DbFailure::Database { code: Some(code), message } => violation_of_code(code@),
            _ => Violation::Unclassified,
        }
    }

    /// The text that describes the failure for the log.
    pub open spec fn message_spec(&self) -> Seq<char> {
        match *self {
            DbFailure::RowNotFound => ROW_NOT_FOUND@,
            DbFailure::Database { code, message } => message@,
            DbFailure::Other { message } => message@,
        }
    }

    /// Inspects the SQLSTATE code of a refusal.
    pub fn violation(&self) -> (v: Violation)
        ensures
            v == self.violation_spec(),
    {
        match self {
            DbFailure::Database { code: Some(code), message: _ } => {
                if *code == String::from_str("23505") {
                    Violation::Unique
                } else if *code == String::from_str("23503") {
                    Violation::ForeignKey
                } else if *code == String::from_str("23502") {
                    Violation::NotNull
                } else {
                    Violation::Unclassified
                }
            },
            _ => Violation::Unclassified,
        }
    }

    /// Whether the failure is a missing row.
    pub fn is_row_not_found(&self) -> (b: bool)
        ensures
            b == (*self is RowNotFound),
    {
        match self {
            DbFailure::RowNotFound => true,
            _ => false,
        }
    }

    /// Gives up the failure for its description.
    pub fn into_message(self) -> (text: String)
        ensures
            text@ == self.message_spec(),
    {
        match self {
            DbFailure::RowNotFound => String::from_str(ROW_NOT_FOUND),
            DbFailure::Database { code: _, message } => message,
            DbFailure::Other { message } => message,
        }
    }
}

} // verus!
