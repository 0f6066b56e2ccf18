//! Creating a user without starting a session.

use vstd::prelude::*;
use crate::credentials::{
    bcrypt_verdict, check_email, email_is_valid, hash_password, password_score,
    MAX_PASSWORD_SCORE, PASSWORD_HASH_LEN,
};
use crate::errors::errors::UserError;
use crate::errors::store_errors::{DbFailure, Violation};
use crate::flow::Step;
use crate::models::user_model::{fault_error, CreateUser, UserFault, UserResponse};

verus! {

/// What the flow asks its caller to do.
pub enum UserAction {
    /// Insert a user and return the row. Answered by `UserEvent::Row`.
    Insert { email: String, name: String, password_hash: String },
}

/// What came of an action.
pub enum UserEvent {
    Row(Result<UserResponse, DbFailure>),
}

/// Creating a user.
pub enum UserCreation {
    /// The user is being inserted.
    Inserting,
}

pub type UserCreationStep = Step<UserCreation, UserAction, Result<UserResponse, UserError>>;

/// Whether a step ended the operation with an internal failure of the given
/// cause.
pub open spec fn failed_with(step: UserCreationStep, cause: Seq<char>) -> bool {
    step matches Step::Done { result: Err(UserError::Internal(text)) } && text@ == cause
}

/// Whether a step asks for the insert of the user that a request describes,
/// with the given password hash.
pub open spec fn asks_insert(
    step: UserCreationStep,
    new_user: CreateUser,
    password_hash: String,
) -> bool {
    &&& step matches Step::Ask {
        flow: UserCreation::Inserting,
        action: UserAction::Insert { email, name, password_hash: hash },
    }
    &&& email == new_user.email
    &&& name == new_user.name
    &&& hash == password_hash
}

/// Whether a step asks for the insert of the user that a request describes,
/// with a hash of the request's password: a text of the regular length that
/// the password verifies against.
pub open spec fn asks_insert_hashed(step: UserCreationStep, new_user: CreateUser) -> bool {
    &&& step matches Step::Ask {
        flow: UserCreation::Inserting,
        action: UserAction::Insert { email, name, password_hash },
    }
    &&& email == new_user.email
    &&& name == new_user.name
    &&& password_hash@.len() == PASSWORD_HASH_LEN
    &&& bcrypt_verdict(new_user.password@, password_hash@) == Some(true)
}

/// Whether a step ended the operation with the error that reports the given
/// fault of the request.
pub open spec fn refuses(step: UserCreationStep, fault: UserFault) -> bool {
    step matches Step::Done { result: Err(error) } && fault_error(fault, error)
}

impl UserCreation {
    /// What a step makes of an outcome.
    pub open spec fn next(self, event: UserEvent, step: UserCreationStep) -> bool {
        match (self, event) {
            (UserCreation::Inserting, UserEvent::Row(row)) => match row {
                Err(failure) => if failure.violation_spec() == Violation::Unique {
                    step matches Step::Done { result: Err(UserError::DuplicateEmail) }
                } else {
                    failed_with(step, failure.message_spec())
                },
                Ok(user) => step matches Step::Done { result: Ok(created) } && created == user,
            },
        }
    }

    /// Takes the outcome of the insert and ends the operation.
    pub fn step(self, event: UserEvent) -> (step: UserCreationStep)
        ensures
            self.next(event, step),
    {
        match (self, event) {
            (UserCreation::Inserting, UserEvent::Row(row)) => match row {
                Err(failure) => match failure.violation() {
                    Violation::Unique => Step::Done { result: Err(UserError::DuplicateEmail) },
                    _ => Step::Done { result: Err(UserError::Internal(failure.into_message())) },
                },
                Ok(user) => Step::Done { result: Ok(user) },
            },
        }
    }
}

/// The operation of the plain user service.
pub struct UserService {}

impl UserService {
    /// Begins the creation of a user whose request has been judged valid,
    /// given what came of hashing the password.
    pub fn enrol(new_user: CreateUser, hashed: Result<String, bcrypt::BcryptError>) -> (step:
        UserCreationStep)
        ensures
            match hashed {
                Err(_) => failed_with(step, "failed to hash password"@),
                Ok(password_hash) => asks_insert(step, new_user, password_hash),
            },
    {
        match hashed {
            Err(_) => Step::Done {
                result: Err(UserError::Internal(String::from_str("failed to hash password"))),
            },
            Ok(password_hash) => Step::Ask {
                flow: UserCreation::Inserting,
                action: UserAction::Insert {
                    email: new_user.email,
                    name: new_user.name,
                    password_hash,
                },
            },
        }
    }

    /// Begins the creation of a user, given the outside judgements on the
    /// email and on the strength of the password. A refused request ends the
    /// operation before anything is hashed or stored; an accepted one has
    /// its password hashed and asks for the insert of the user.
    pub fn create_user_scored(new_user: CreateUser, email_ok: bool, score: u8) -> (step:
        UserCreationStep)
        ensures
            match new_user.fault(email_ok, score) {
                Some(fault) => refuses(step, fault),
                None => failed_with(step, "failed to hash password"@) || asks_insert_hashed(
                    step,
                    new_user,
                ),
            },
    {
        match new_user.check(email_ok, score) {
            Err(error) => Step::Done { result: Err(error) },
            Ok(_) => {
                let hashed = hash_password(new_user.password.as_str());
                Self::enrol(new_user, hashed)
            },
        }
    }

    /// Begins the creation of a user: has the email and the strength of the
    /// password judged outside, and goes on as `create_user_scored` does
    /// for those judgements. The result is stated for whatever score and
    /// hash come back from outside.
    pub fn create_user(new_user: CreateUser) -> (step: UserCreationStep)
        ensures
            exists|score: u8|
                score <= MAX_PASSWORD_SCORE && (new_user.password@.len() == 0 ==> score == 0)
                    && match #[trigger] new_user.fault(email_is_valid(new_user.email@), score) {
                    Some(fault) => refuses(step, fault),
                    None => failed_with(step, "failed to hash password"@) || asks_insert_hashed(
                        step,
                        new_user,
                    ),
                },
    {
        let email_ok = check_email(&new_user.email);
        let score = password_score(
            new_user.password.as_str(),
            new_user.email.as_str(),
            new_user.name.as_str(),
        );
        Self::create_user_scored(new_user, email_ok, score)
    }
}

} // verus!
