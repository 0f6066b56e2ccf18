//! Requests and rows of the plain user service.

use vstd::prelude::*;
use crate::credentials::{
    check_email, email_is_valid, password_score, ACCEPTABLE_PASSWORD_SCORE, MAX_PASSWORD_SCORE,
};
use crate::errors::errors::UserError;
use crate::text::{byte_len, byte_length};

verus! {

/// A user as the relational store returns it.
#[derive(Debug)]
pub struct UserResponse {
    pub email: String,
    pub name: String,
    pub uuid: u128,
}

/// A request to create a user.
#[derive(Debug)]
pub struct CreateUser {
    pub email: String,
    pub name: String,
    pub password: String,
}

/// Why a request to create a user is refused.
pub enum UserFault {
    NameRequired,
    NameLength,
    Email,
    Password,
}

/// The error that a fault of a request to create a user is reported as.
pub open spec fn fault_error(fault: UserFault, error: UserError) -> bool {
    match fault {
        UserFault::NameRequired => error is NameRequired,
        UserFault::NameLength => error is InvalidNameLength,
        UserFault::Email => error is InvalidEmail,
        UserFault::Password => error is WeakPassword,
    }
}

impl CreateUser {
    /// What is wrong with the request, if anything, given the outside
    /// judgements on its email and on the strength of its password. The
    /// checks are made in this order, and the first that fails decides.
    pub open spec fn fault(&self, email_ok: bool, score: u8) -> Option<UserFault> {
        if self.name@.len() == 0 {
            Some(UserFault::NameRequired)
        } else if byte_len(self.name@) < 3 {
            Some(UserFault::NameLength)
        } else if !email_ok {
            Some(UserFault::Email)
        } else if score < ACCEPTABLE_PASSWORD_SCORE {
            Some(UserFault::Password)
        } else {
            None
        }
    }

    /// Judges a request, given the outside judgements on its email and on
    /// the strength of its password.
    pub fn check(&self, email_ok: bool, score: u8) -> (r: Result<(), UserError>)
        ensures
            match self.fault(email_ok, score) {
                None => r is Ok,
                Some(fault) => r matches Err(error) && fault_error(fault, error),
            },
    {
        if self.name.as_str().is_empty() {
            return Err(UserError::NameRequired);
        }
        if byte_length(self.name.as_str()) < 3 {
            return Err(UserError::InvalidNameLength);
        }
        if !email_ok {
            return Err(UserError::InvalidEmail);
        }
        if score < ACCEPTABLE_PASSWORD_SCORE {
            return Err(UserError::WeakPassword);
        }
        Ok(())
    }

    /// Judges a request. The strength of the password is estimated outside
    /// and may change with the calendar; the result is the verdict for the
    /// score that the estimate gave.
    pub fn validate(&self) -> (r: Result<(), UserError>)
        ensures
            exists|score: u8|
                score <= MAX_PASSWORD_SCORE && (self.password@.len() == 0 ==> score == 0)
                    && match #[trigger] self.fault(email_is_valid(self.email@), score) {
                    None => r is Ok,
                    Some(fault) => r matches Err(error) && fault_error(fault, error),
                },
    {
        let email_ok = check_email(&self.email);
        let score = password_score(
            self.password.as_str(),
            self.email.as_str(),
            self.name.as_str(),
        );
        self.check(email_ok, score)
    }
}

} // verus!
