//! Requests and rows of registration, login and session renewal.

use vstd::prelude::*;
use crate::credentials::{
    check_email, email_is_valid, password_score, ACCEPTABLE_PASSWORD_SCORE, MAX_PASSWORD_SCORE,
};
use crate::errors::auth_errors::ValidationError;
use crate::text::{byte_len, byte_length};

verus! {

/// What a successful registration, login or renewal hands to the caller.
#[derive(Debug)]
pub struct AuthResponse {
    pub email: String,
    pub refresh_token: String,
    pub token: String,
}

/// The user row that registration and renewal read.
#[derive(Debug)]
pub struct UserQuery {
    pub email: String,
    pub id: u128,
}

/// The user row that login reads, with the stored password hash.
#[derive(Debug)]
pub struct LoginQuery {
    pub email: String,
    pub id: u128,
    pub password: String,
}

/// A registration request.
#[derive(Debug)]
pub struct Register {
    pub email: String,
    pub name: String,
    pub password: String,
}

impl Register {
    /// The verdict on a registration request, given the outside judgements
    /// on its email and on the strength of its password. The checks are made
    /// in this order, and the first that fails decides.
    pub open spec fn verdict(&self, email_ok: bool, score: u8) -> Result<(), ValidationError> {
        if self.name@.len() == 0 {
            Err(ValidationError::NameRequired)
        } else if byte_len(self.name@) < 3 || byte_len(self.name@) > 100 {
            Err(ValidationError::NameTooShort)
        } else if !email_ok || byte_len(self.email@) > 254 {
            Err(ValidationError::InvalidEmail)
        } else if byte_len(self.password@) > 72 {
            Err(ValidationError::PasswordTooLong)
        } else if score < ACCEPTABLE_PASSWORD_SCORE {
            Err(ValidationError::WeakPassword)
        } else {
            Ok(())
        }
    }

    /// Judges a registration request, given the outside judgements on its
    /// email and on the strength of its password.
    pub fn check(&self, email_ok: bool, score: u8) -> (r: Result<(), ValidationError>)
        ensures
            r == self.verdict(email_ok, score),
    {
        if self.name.as_str().is_empty() {
            return Err(ValidationError::NameRequired);
        }
        if byte_length(self.name.as_str()) < 3 || byte_length(self.name.as_str()) > 100 {
            return Err(ValidationError::NameTooShort);
        }
        if !email_ok || byte_length(self.email.as_str()) > 254 {
            return Err(ValidationError::InvalidEmail);
        }
        if byte_length(self.password.as_str()) > 72 {
            return Err(ValidationError::PasswordTooLong);
        }
        if score < ACCEPTABLE_PASSWORD_SCORE {
            return Err(ValidationError::WeakPassword);
        }
        Ok(())
    }

    /// Judges a registration request. The strength of the password is
    /// estimated outside and may change with the calendar; the result is the
    /// verdict for the score that the estimate gave.
    pub fn validate(&self) -> (r: Result<(), ValidationError>)
        ensures
            exists|score: u8|
                score <= MAX_PASSWORD_SCORE && (self.password@.len() == 0 ==> score == 0) && r
                    == #[trigger] self.verdict(email_is_valid(self.email@), score),
    {
        let email_ok = check_email(&self.email);
        let score = password_score(
            self.password.as_str(),
            self.email.as_str(),
            self.name.as_str(),
        );
        self.check(email_ok, score)
    }
}

/// A login request.
#[derive(Debug)]
pub struct Login {
    pub email: String,
    pub password: String,
}

impl Login {
    /// The verdict on a login request, given the outside judgement on its
    /// email.
    pub open spec fn verdict(&self, email_ok: bool) -> Result<(), ValidationError> {
        if !email_ok {
            Err(ValidationError::InvalidEmail)
        } else if self.password@.len() == 0 {
            Err(ValidationError::PasswordRequired)
        } else if byte_len(self.password@) < 8 {
            Err(ValidationError::WeakPassword)
        } else {
            Ok(())
        }
    }

    /// Judges a login request, given the outside judgement on its email.
    pub fn check(&self, email_ok: bool) -> (r: Result<(), ValidationError>)
        ensures
            r == self.verdict(email_ok),
    {
        if !email_ok {
            return Err(ValidationError::InvalidEmail);
        }
        if self.password.as_str().is_empty() {
            return Err(ValidationError::PasswordRequired);
        }
        if byte_length(self.password.as_str()) < 8 {
            return Err(ValidationError::WeakPassword);
        }
        Ok(())
    }

    /// Judges a login request.
    pub fn validate(&self) -> (r: Result<(), ValidationError>)
        ensures
            r == self.verdict(email_is_valid(self.email@)),
    {
        let email_ok = check_email(&self.email);
        self.check(email_ok)
    }
}

} // verus!
