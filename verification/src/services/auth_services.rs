//! Registration, login and session renewal.
//!
//! A session starts with a pair of tokens: a short-lived access token and a
//! refresh token whose identifier goes on record in the key-value store. A
//! renewal exchanges a refresh token that is on record for a new pair,
//! records the new identifier and strikes the old one, so that every refresh
//! token can be used once.

use vstd::prelude::*;
use crate::cache::{presence_in, read_presence, Outcome};
use crate::clock::unix_now;
use crate::credentials::{
    bcrypt_verdict, check_email, email_is_valid, hash_password, password_score,
    verify_password, MAX_PASSWORD_SCORE, PASSWORD_HASH_LEN,
};
use crate::errors::auth_errors::{AuthError, ValidationError};
use crate::errors::store_errors::{DbFailure, Violation};
use crate::flow::{out_of_turn, Step};
use crate::ident::{create_uuid, uuid_text};
use crate::models::auth_models::{AuthResponse, Login, LoginQuery, Register, UserQuery};
use crate::rotation::{
    check_batch, check_commands, record_batch, record_commands, revoke_batch, revoke_commands,
};
use crate::services::jwt_services::{
    JwtService, RefreshTokenClaims, TokenClaims, ACCESS_TTL_SECONDS, REFRESH_TOKEN_TTL_SECONDS,
};
use crate::store::{Command, CommandView, ReplyView};
use crate::traffic::{is_traffic, Traffic};

verus! {

/// What a flow of the authentication service asks its caller to do.
pub enum AuthAction {
    /// Send the batch to the key-value store. Answered by
    /// `AuthEvent::Store`.
    Store(Vec<Command>),
    /// Insert a user and return the row. Answered by `AuthEvent::User`.
    InsertUser { email: String, name: String, password_hash: String },
    /// Select the user with this email, with the password hash. Answered by
    /// `AuthEvent::Login`.
    FindUserByEmail { email: String },
    /// Select the user with this identifier. Answered by `AuthEvent::User`.
    FindUserById { id: u128 },
    /// Check the signature and the expiry of a refresh token and read its
    /// claims. Answered by `AuthEvent::Claims`.
    VerifyRefreshToken(String),
    /// Sign an access token with these claims. Answered by
    /// `AuthEvent::Signed`.
    SignAccess(TokenClaims),
    /// Sign a refresh token with these claims. Answered by
    /// `AuthEvent::Signed`.
    SignRefresh(RefreshTokenClaims),
}

/// What came of an action.
pub enum AuthEvent {
    Store(Outcome),
    User(Result<UserQuery, DbFailure>),
    Login(Result<LoginQuery, DbFailure>),
    Claims(Result<RefreshTokenClaims, String>),
    Signed(Result<String, String>),
}

/// What an operation takes from outside before it begins: a fresh token
/// identifier, and the time in seconds since the Unix epoch.
#[derive(Debug)]
pub struct Draw {
    pub token_id: String,
    pub now: i64,
}

impl Draw {
    /// Draws a random token identifier and reads the clock.
    pub fn take() -> (draw: Draw)
        ensures
            exists|id: u128| draw.token_id@ == uuid_text(id),
    {
        Draw { token_id: create_uuid(), now: unix_now() }
    }
}

/// Whether a step ended the operation with an internal failure of the given
/// cause.
pub open spec fn failed_with<F, T>(
    step: Step<F, AuthAction, Result<T, AuthError>>,
    cause: Seq<char>,
) -> bool {
    step matches Step::Done { result: Err(AuthError::Internal(text)) } && text@ == cause
}

/// Whether a step ended the operation with the given value.
pub open spec fn succeeded_with<F, T>(
    step: Step<F, AuthAction, Result<T, AuthError>>,
    value: T,
) -> bool {
    step matches Step::Done { result: Ok(v) } && v == value
}

/// Whether a step goes on with the given flow and the given action.
pub open spec fn asks<F, R>(step: Step<F, AuthAction, R>, flow: F, action: AuthAction) -> bool {
    step matches Step::Ask { flow: f, action: a } && f == flow && a == action
}

/// The batch that a step sends to the key-value store, if it sends one.
pub open spec fn batch_of<F, R>(step: Step<F, AuthAction, R>) -> Option<Seq<CommandView>> {
    match step {
        Step::Ask { flow, action: AuthAction::Store(commands) } => Some(commands.deep_view()),
        _ => None,
    }
}

/// Whether a step goes on with the given flow and sends the given batch to
/// the key-value store.
pub open spec fn asks_store<F, R>(
    step: Step<F, AuthAction, R>,
    flow: F,
    batch: Seq<CommandView>,
) -> bool {
    step matches Step::Ask { flow: f, action } && f == flow && sends(action, batch)
}

/// Whether an action sends the given batch to the key-value store.
pub open spec fn sends(action: AuthAction, batch: Seq<CommandView>) -> bool {
    action matches AuthAction::Store(commands) && commands.deep_view() == batch
}

/// Whether a step ended the operation with the given fault of the request.
pub open spec fn refuses<F, T>(
    step: Step<F, AuthAction, Result<T, AuthError>>,
    fault: ValidationError,
) -> bool {
    step matches Step::Done { result: Err(AuthError::Validation(e)) } && e == fault
}

/// Whether a step asks for the insert of the user that a registration
/// request describes, with a hash of the request's password: a text of the
/// regular length that the password verifies against.
pub open spec fn asks_insert(step: SignInStep, body: Register, draw: Draw) -> bool {
    &&& step matches Step::Ask {
        flow,
        action: AuthAction::InsertUser { email, name, password_hash },
    }
    &&& flow == (SignIn::Inserting { draw })
    &&& email == body.email
    &&& name == body.name
    &&& password_hash@.len() == PASSWORD_HASH_LEN
    &&& bcrypt_verdict(body.password@, password_hash@) == Some(true)
}

/// Whether a step refused the caller as unauthorized.
pub open spec fn refused<F, T>(step: Step<F, AuthAction, Result<T, AuthError>>) -> bool {
    step matches Step::Done { result: Err(AuthError::Unauthorized) }
}

/// Whether a step refused the caller's credentials.
pub open spec fn rejected<F, T>(step: Step<F, AuthAction, Result<T, AuthError>>) -> bool {
    step matches Step::Done { result: Err(AuthError::InvalidCredentials) }
}

/// Whether the claims are those of a refresh token for `sub` with the
/// identifier `jti`, issued at `now`.
pub open spec fn refresh_claims_for(
    claims: RefreshTokenClaims,
    jti: Seq<char>,
    sub: u128,
    now: i64,
) -> bool {
    &&& claims.sub == sub
    &&& claims.iat == now
    &&& claims.exp == now + REFRESH_TOKEN_TTL_SECONDS
    &&& claims.jti@ == jti
}

/// The claims of an access token for `sub`, issued at `now`.
pub open spec fn access_claims_for(sub: u128, now: i64) -> TokenClaims {
    TokenClaims { sub, exp: (now + ACCESS_TTL_SECONDS) as i64, iat: now }
}

/// The cause that is logged where a token would expire beyond the last
/// second that can be written.
pub fn expiry_out_of_range() -> (cause: String)
    ensures
        cause@ == "token expiry is out of range"@,
{
    String::from_str("token expiry is out of range")
}

/// The cause that is logged where the identifier drawn for a rotation is
/// the one of the token presented.
pub fn repeated_draw() -> (cause: String)
    ensures
        cause@ == "drawn token identifier repeats the presented one"@,
{
    String::from_str("drawn token identifier repeats the presented one")
}

/// Starting a session, by registration or by login.
pub enum SignIn {
    /// The new user is being inserted.
    Inserting { draw: Draw },
    /// The user is being looked up by email.
    Finding { password: String, draw: Draw },
    /// The identifier of the refresh token is being recorded.
    Recording { user: UserQuery, draw: Draw },
    /// The access token is being signed.
    SigningAccess { user: UserQuery, draw: Draw },
    /// The refresh token is being signed.
    SigningRefresh { email: String, token: String },
}

pub type SignInStep = Step<SignIn, AuthAction, Result<AuthResponse, AuthError>>;

impl SignIn {
    /// What a step makes of an outcome, state by state.
    pub open spec fn next(self, event: AuthEvent, step: SignInStep) -> bool {
        match (self, event) {
            (SignIn::Inserting { draw }, AuthEvent::User(row)) => {
                match row {
                    Err(failure) => if failure.violation_spec() == Violation::Unique {
                        step matches Step::Done { result: Err(AuthError::DuplicateEmail) }
                    } else {
                        failed_with(step, failure.message_spec())
                    },
                    Ok(user) => {
                        &&& step matches Step::Ask { flow, action }
                        &&& flow == (SignIn::Recording { user, draw })
                        &&& sends(action, record_batch(draw.token_id@))
                    },
                }
            },
            (SignIn::Finding { password, draw }, AuthEvent::Login(row)) => {
                match row {
                    Err(DbFailure::RowNotFound) => rejected(step),
                    Err(failure) => failed_with(step, failure.message_spec()),
                    Ok(found) => match bcrypt_verdict(password@, found.password@) {
                        None => failed_with(step, "failed to verify password hash"@),
                        Some(false) => rejected(step),
                        Some(true) => {
                            &&& step matches Step::Ask { flow, action }
                            &&& flow == (SignIn::Recording {
                                user: UserQuery { email: found.email, id: found.id },
                                draw,
                            })
                            &&& sends(action, record_batch(draw.token_id@))
                        },
                    },
                }
            },
            (SignIn::Recording { user, draw }, AuthEvent::Store(outcome)) => {
                match outcome {
                    Err(cause) => failed_with(step, cause@),
                    Ok(_) => if draw.now + ACCESS_TTL_SECONDS > i64::MAX {
                        failed_with(step, "token expiry is out of range"@)
                    } else {
                        asks(
                            step,
                            SignIn::SigningAccess { user, draw },
                            AuthAction::SignAccess(access_claims_for(user.id, draw.now)),
                        )
                    },
                }
            },
            (SignIn::SigningAccess { user, draw }, AuthEvent::Signed(signed)) => {
                match signed {
                    Err(cause) => failed_with(step, cause@),
                    Ok(token) => if draw.now + REFRESH_TOKEN_TTL_SECONDS > i64::MAX {
                        failed_with(step, "token expiry is out of range"@)
                    } else {
                        &&& step matches Step::Ask {
                            flow,
                            action: AuthAction::SignRefresh(claims),
                        }
                        &&& flow == (SignIn::SigningRefresh { email: user.email, token })
                        &&& refresh_claims_for(claims, draw.token_id@, user.id, draw.now)
                    },
                }
            },
            (SignIn::SigningRefresh { email, token }, AuthEvent::Signed(signed)) => {
                match signed {
                    Err(cause) => failed_with(step, cause@),
                    Ok(refresh_token) => succeeded_with(
                        step,
                        AuthResponse { email, refresh_token, token },
                    ),
                }
            },
            _ => failed_with(step, "outcome does not answer the pending action"@),
        }
    }

    /// Takes the outcome of the pending action and decides what comes next.
    /// The identifier of the refresh token is recorded before any token is
    /// signed: where the record cannot be written, the operation fails and
    /// no token is handed out.
    pub fn step(self, event: AuthEvent, jwt: &JwtService) -> (step: SignInStep)
        ensures
            self.next(event, step),
    {
        match (self, event) {
            (SignIn::Inserting { draw }, AuthEvent::User(row)) => {
                match row {
                    Err(failure) => match failure.violation() {
                        Violation::Unique => Step::Done { result: Err(AuthError::DuplicateEmail) },
                        _ => Step::Done {
                            result: Err(AuthError::Internal(failure.into_message())),
                        },
                    },
                    Ok(user) => {
                        let batch = record_commands(&draw.token_id);
                        Step::Ask {
                            flow: SignIn::Recording { user, draw },
                            action: AuthAction::Store(batch),
                        }
                    },
                }
            },
            (SignIn::Finding { password, draw }, AuthEvent::Login(row)) => {
                match row {
                    Err(failure) => {
                        if failure.is_row_not_found() {
                            Step::Done { result: Err(AuthError::InvalidCredentials) }
                        } else {
                            Step::Done { result: Err(AuthError::Internal(failure.into_message())) }
                        }
                    },
                    Ok(found) => match verify_password(password.as_str(), found.password.as_str()) {
                        Err(_) => Step::Done {
                            result: Err(
                                AuthError::Internal(
                                    String::from_str("failed to verify password hash"),
                                ),
                            ),
                        },
                        Ok(false) => Step::Done { result: Err(AuthError::InvalidCredentials) },
                        Ok(true) => {
                            let batch = record_commands(&draw.token_id);
                            Step::Ask {
                                flow: SignIn::Recording {
                                    user: UserQuery { email: found.email, id: found.id },
                                    draw,
                                },
                                action: AuthAction::Store(batch),
                            }
                        },
                    },
                }
            },
            (SignIn::Recording { user, draw }, AuthEvent::Store(outcome)) => {
                match outcome {
                    Err(cause) => Step::Done { result: Err(AuthError::Internal(cause)) },
                    Ok(_) => match jwt.create_access_token(user.id, draw.now) {
                        None => Step::Done {
                            result: Err(AuthError::Internal(expiry_out_of_range())),
                        },
                        Some(claims) => Step::Ask {
                            flow: SignIn::SigningAccess { user, draw },
                            action: AuthAction::SignAccess(claims),
                        },
                    },
                }
            },
            (SignIn::SigningAccess { user, draw }, AuthEvent::Signed(signed)) => {
                match signed {
                    Err(cause) => Step::Done { result: Err(AuthError::Internal(cause)) },
                    Ok(token) => match jwt.create_refresh_token(
                        draw.token_id.as_str(),
                        user.id,
                        draw.now,
                    ) {
                        None => Step::Done {
                            result: Err(AuthError::Internal(expiry_out_of_range())),
                        },
                        Some(claims) => Step::Ask {
                            flow: SignIn::SigningRefresh { email: user.email, token },
                            action: AuthAction::SignRefresh(claims),
                        },
                    },
                }
            },
            (SignIn::SigningRefresh { email, token }, AuthEvent::Signed(signed)) => {
                match signed {
                    Err(cause) => Step::Done { result: Err(AuthError::Internal(cause)) },
                    Ok(refresh_token) => Step::Done {
                        result: Ok(AuthResponse { email, refresh_token, token }),
                    },
                }
            },
            _ => Step::Done { result: Err(AuthError::Internal(out_of_turn())) },
        }
    }
}

/// Renewing a session: exchanging a refresh token for a new pair of tokens.
pub enum Renewal {
    /// The presented token is being verified.
    Verifying { draw: Draw },
    /// The record of the presented token is being checked.
    Checking { claims: RefreshTokenClaims, draw: Draw },
    /// The owner of the token is being looked up.
    Finding { presented: String, draw: Draw },
    /// The new access token is being signed.
    SigningAccess { presented: String, user: UserQuery, draw: Draw },
    /// The new refresh token is being signed.
    SigningRefresh { presented: String, email: String, token: String, fresh: String },
    /// The identifier of the new refresh token is being recorded.
    Recording { presented: String, response: AuthResponse },
    /// The identifier of the presented token is being struck.
    Revoking { response: AuthResponse },
}

pub type RenewalStep = Step<Renewal, AuthAction, Result<AuthResponse, AuthError>>;

impl Renewal {
    /// What a step makes of an outcome, state by state.
    pub open spec fn next(self, event: AuthEvent, step: RenewalStep) -> bool {
        match (self, event) {
            (Renewal::Verifying { draw }, AuthEvent::Claims(verified)) => {
                match verified {
                    Err(_) => refused(step),
                    Ok(presented) => asks_store(
                        step,
                        Renewal::Checking { claims: presented, draw },
                        check_batch(presented.jti@),
                    ),
                }
            },
            (Renewal::Checking { claims: presented, draw }, AuthEvent::Store(outcome)) => {
                match outcome {
                    Err(cause) => failed_with(step, cause@),
                    Ok(replies) => match presence_in(replies.deep_view()) {
                        None => failed_with(step, "unexpected reply to the existence check"@),
                        Some(false) => refused(step),
                        Some(true) => if draw.token_id@ == presented.jti@ {
                            failed_with(
                                step,
                                "drawn token identifier repeats the presented one"@,
                            )
                        } else {
                            asks(
                                step,
                                Renewal::Finding { presented: presented.jti, draw },
                                AuthAction::FindUserById { id: presented.sub },
                            )
                        },
                    },
                }
            },
            (Renewal::Finding { presented, draw }, AuthEvent::User(row)) => {
                match row {
                    Err(DbFailure::RowNotFound) => rejected(step),
                    Err(failure) => failed_with(step, failure.message_spec()),
                    Ok(user) => if draw.now + ACCESS_TTL_SECONDS > i64::MAX {
                        failed_with(step, "token expiry is out of range"@)
                    } else {
                        asks(
                            step,
                            Renewal::SigningAccess { presented, user, draw },
                            AuthAction::SignAccess(access_claims_for(user.id, draw.now)),
                        )
                    },
                }
            },
            (Renewal::SigningAccess { presented, user, draw }, AuthEvent::Signed(signed)) => {
                match signed {
                    Err(cause) => failed_with(step, cause@),
                    Ok(token) => if draw.now + REFRESH_TOKEN_TTL_SECONDS > i64::MAX {
                        failed_with(step, "token expiry is out of range"@)
                    } else {
                        &&& step matches Step::Ask {
                            flow,
                            action: AuthAction::SignRefresh(claims),
                        }
                        &&& flow == (Renewal::SigningRefresh {
                            presented,
                            email: user.email,
                            token,
                            fresh: draw.token_id,
                        })
                        &&& refresh_claims_for(claims, draw.token_id@, user.id, draw.now)
                    },
                }
            },
            (
                Renewal::SigningRefresh { presented, email, token, fresh },
                AuthEvent::Signed(signed),
            ) => {
                match signed {
                    Err(cause) => failed_with(step, cause@),
                    Ok(refresh_token) => {
                        &&& step matches Step::Ask { flow, action }
                        &&& flow == (Renewal::Recording {
                            presented,
                            response: AuthResponse { email, refresh_token, token },
                        })
                        &&& sends(action, record_batch(fresh@))
                    },
                }
            },
            (Renewal::Recording { presented, response }, AuthEvent::Store(outcome)) => {
                match outcome {
                    Err(cause) => failed_with(step, cause@),
                    Ok(_) => {
                        &&& step matches Step::Ask { flow, action }
                        &&& flow == (Renewal::Revoking { response })
                        &&& sends(action, revoke_batch(presented@))
                    },
                }
            },
            (Renewal::Revoking { response }, AuthEvent::Store(outcome)) => {
                match outcome {
                    Err(cause) => failed_with(step, cause@),
                    Ok(_) => succeeded_with(step, response),
                }
            },
            _ => failed_with(step, "outcome does not answer the pending action"@),
        }
    }

    /// Takes the outcome of the pending action and decides what comes next.
    /// A token that does not verify, or whose record is absent, is refused
    /// as unauthorized, whatever was drawn. A token on record is renewed
    /// only with a draw other than its own identifier: the token that a
    /// renewal hands out never bears the identifier of the token it
    /// consumes. The new identifier is recorded
    /// before the presented one is struck: a failure in between leaves both
    /// on record, never none.
    pub fn step(self, event: AuthEvent, jwt: &JwtService) -> (step: RenewalStep)
        ensures
            self.next(event, step),
    {
        match (self, event) {
            (Renewal::Verifying { draw }, AuthEvent::Claims(verified)) => {
                match verified {
                    Err(_) => Step::Done { result: Err(AuthError::Unauthorized) },
                    Ok(presented) => {
                        let batch = check_commands(&presented.jti);
                        Step::Ask {
                            flow: Renewal::Checking { claims: presented, draw },
                            action: AuthAction::Store(batch),
                        }
                    },
                }
            },
            (Renewal::Checking { claims: presented, draw }, AuthEvent::Store(outcome)) => {
                match read_presence(outcome) {
                    Err(cause) => Step::Done { result: Err(AuthError::Internal(cause)) },
                    Ok(false) => Step::Done { result: Err(AuthError::Unauthorized) },
                    Ok(true) => {
                        if draw.token_id == presented.jti {
                            Step::Done { result: Err(AuthError::Internal(repeated_draw())) }
                        } else {
                            Step::Ask {
                                flow: Renewal::Finding { presented: presented.jti, draw },
                                action: AuthAction::FindUserById { id: presented.sub },
                            }
                        }
                    },
                }
            },
            (Renewal::Finding { presented, draw }, AuthEvent::User(row)) => {
                match row {
                    Err(failure) => {
                        if failure.is_row_not_found() {
                            Step::Done { result: Err(AuthError::InvalidCredentials) }
                        } else {
                            Step::Done { result: Err(AuthError::Internal(failure.into_message())) }
                        }
                    },
                    Ok(user) => match jwt.create_access_token(user.id, draw.now) {
                        None => Step::Done {
                            result: Err(AuthError::Internal(expiry_out_of_range())),
                        },
                        Some(claims) => Step::Ask {
                            flow: Renewal::SigningAccess { presented, user, draw },
                            action: AuthAction::SignAccess(claims),
                        },
                    },
                }
            },
            (Renewal::SigningAccess { presented, user, draw }, AuthEvent::Signed(signed)) => {
                match signed {
                    Err(cause) => Step::Done { result: Err(AuthError::Internal(cause)) },
                    Ok(token) => match jwt.create_refresh_token(
                        draw.token_id.as_str(),
                        user.id,
                        draw.now,
                    ) {
                        None => Step::Done {
                            result: Err(AuthError::Internal(expiry_out_of_range())),
                        },
                        Some(claims) => Step::Ask {
                            flow: Renewal::SigningRefresh {
                                presented,
                                email: user.email,
                                token,
                                fresh: draw.token_id,
                            },
                            action: AuthAction::SignRefresh(claims),
                        },
                    },
                }
            },
            (
                Renewal::SigningRefresh { presented, email, token, fresh },
                AuthEvent::Signed(signed),
            ) => {
                match signed {
                    Err(cause) => Step::Done { result: Err(AuthError::Internal(cause)) },
                    Ok(refresh_token) => {
                        let batch = record_commands(&fresh);
                        Step::Ask {
                            flow: Renewal::Recording {
                                presented,
                                response: AuthResponse { email, refresh_token, token },
                            },
                            action: AuthAction::Store(batch),
                        }
                    },
                }
            },
            (Renewal::Recording { presented, response }, AuthEvent::Store(outcome)) => {
                match outcome {
                    Err(cause) => Step::Done { result: Err(AuthError::Internal(cause)) },
                    Ok(_) => {
                        let batch = revoke_commands(&presented);
                        Step::Ask {
                            flow: Renewal::Revoking { response },
                            action: AuthAction::Store(batch),
                        }
                    },
                }
            },
            (Renewal::Revoking { response }, AuthEvent::Store(outcome)) => {
                match outcome {
                    Err(cause) => Step::Done { result: Err(AuthError::Internal(cause)) },
                    Ok(_) => Step::Done { result: Ok(response) },
                }
            },
            _ => Step::Done { result: Err(AuthError::Internal(out_of_turn())) },
        }
    }
}

/// The operations that start and renew sessions. Each begins a flow: it
/// returns the first action, or the result where the request is refused at
/// once.
pub struct AuthService {}

impl AuthService {
    /// Begins the registration of a request that has been judged valid,
    /// given what came of hashing its password.
    pub fn enrol(body: Register, hashed: Result<String, bcrypt::BcryptError>, draw: Draw) -> (step:
        SignInStep)
        ensures
            match hashed {
                Err(_) => failed_with(step, "failed to hash password"@),
                Ok(password_hash) => asks(
                    step,
                    SignIn::Inserting { draw },
                    AuthAction::InsertUser { email: body.email, name: body.name, password_hash },
                ),
            },
    {
        match hashed {
            Err(_) => Step::Done {
                result: Err(AuthError::Internal(String::from_str("failed to hash password"))),
            },
            Ok(password_hash) => Step::Ask {
                flow: SignIn::Inserting { draw },
                action: AuthAction::InsertUser {
                    email: body.email,
                    name: body.name,
                    password_hash,
                },
            },
        }
    }

    /// Begins the registration of a request, given the outside judgements on
    /// its email and on the strength of its password. A refused request ends
    /// the operation before anything is hashed or stored; an accepted one
    /// has its password hashed and asks for the insert of the user.
    pub fn register_scored(body: Register, email_ok: bool, score: u8, draw: Draw) -> (step:
        SignInStep)
        ensures
            match body.verdict(email_ok, score) {
                Err(fault) => refuses(step, fault),
                Ok(_) => failed_with(step, "failed to hash password"@) || asks_insert(
                    step,
                    body,
                    draw,
                ),
            },
    {
        match body.check(email_ok, score) {
            Err(error) => Step::Done { result: Err(AuthError::Validation(error)) },
            Ok(_) => {
                let hashed = hash_password(body.password.as_str());
                Self::enrol(body, hashed, draw)
            },
        }
    }

    /// Begins a registration: has the email and the strength of the
    /// password judged outside, and goes on as `register_scored` does for
    /// those judgements. The strength estimate may change with the
    /// calendar, and the hash is salted at random: the result is stated for
    /// whatever score and hash come back.
    pub fn register(body: Register, draw: Draw) -> (step: SignInStep)
        ensures
            exists|score: u8|
                score <= MAX_PASSWORD_SCORE && (body.password@.len() == 0 ==> score == 0)
                    && match #[trigger] body.verdict(email_is_valid(body.email@), score) {
                    Err(fault) => refuses(step, fault),
                    Ok(_) => failed_with(step, "failed to hash password"@) || asks_insert(
                        step,
                        body,
                        draw,
                    ),
                },
    {
        let email_ok = check_email(&body.email);
        let score = password_score(
            body.password.as_str(),
            body.email.as_str(),
            body.name.as_str(),
        );
        Self::register_scored(body, email_ok, score, draw)
    }

    /// Begins a login. The request is judged first, and a refused request
    /// ends the operation before any store is asked.
    pub fn login(body: Login, draw: Draw) -> (step: SignInStep)
        ensures
            match body.verdict(email_is_valid(body.email@)) {
                Err(fault) => refuses(step, fault),
                Ok(_) => asks(
                    step,
                    SignIn::Finding { password: body.password, draw },
                    AuthAction::FindUserByEmail { email: body.email },
                ),
            },
    {
        match body.validate() {
            Err(error) => Step::Done { result: Err(AuthError::Validation(error)) },
            Ok(_) => Step::Ask {
                flow: SignIn::Finding { password: body.password, draw },
                action: AuthAction::FindUserByEmail { email: body.email },
            },
        }
    }

    /// Begins a renewal with the refresh token that the caller presented. A
    /// request that presents none is refused at once.
    pub fn refresh(cookie: Option<String>, draw: Draw) -> (step: RenewalStep)
        ensures
            match cookie {
                None => refused(step),
                Some(token) => asks(
                    step,
                    Renewal::Verifying { draw },
                    AuthAction::VerifyRefreshToken(token),
                ),
            },
    {
        match cookie {
            None => Step::Done { result: Err(AuthError::Unauthorized) },
            Some(token) => Step::Ask {
                flow: Renewal::Verifying { draw },
                action: AuthAction::VerifyRefreshToken(token),
            },
        }
    }
}

/// A draw that repeats the identifier of a token on record is refused: the
/// renewal ends with an internal failure before anything is signed or
/// recorded, and the record of the token stays.
pub proof fn law_repeated_draw_is_refused(
    draw: Draw,
    presented: RefreshTokenClaims,
    replies: Vec<crate::store::Reply>,
    step: RenewalStep,
)
    requires
        draw.token_id@ == presented.jti@,
        presence_in(replies.deep_view()) == Some(true),
        (Renewal::Checking { claims: presented, draw }).next(AuthEvent::Store(Ok(replies)), step),
    ensures
        failed_with(step, "drawn token identifier repeats the presented one"@),
{
}

/// A renewal is refused as unauthorized exactly where the token does not
/// verify or its record is absent. Let the key-value store answer the check
/// of the record. Whatever was drawn: the first two steps of a renewal end
/// it as unauthorized if and only if the token failed to verify, or the
/// store reported its identifier off the record.
pub proof fn law_unauthorized_means_unverified_or_off_record(
    draw: Draw,
    verified: Result<RefreshTokenClaims, String>,
    replies: Vec<crate::store::Reply>,
    on_record: bool,
    first: RenewalStep,
    second: RenewalStep,
)
    requires
        presence_in(replies.deep_view()) == Some(on_record),
        (Renewal::Verifying { draw }).next(AuthEvent::Claims(verified), first),
        first is Ask ==> first->Ask_flow.next(AuthEvent::Store(Ok(replies)), second),
    ensures
        verified is Err <==> refused(first),
        verified is Ok ==> first is Ask && (refused(second) <==> !on_record),
{
}

/// No later step of a renewal refuses as unauthorized: once the record of
/// the token was found, the renewal ends in success or with another
/// failure.
pub proof fn law_later_steps_never_refuse(flow: Renewal, event: AuthEvent, step: RenewalStep)
    requires
        !(flow is Verifying || flow is Checking),
        flow.next(event, step),
    ensures
        !refused(step),
{
}

/// Rotation changes the token identifier. Follow a renewal from the
/// verified token on, through the check of its record, the lookup of its
/// owner and the signing of both tokens, with every store and codec
/// answering. Whatever identifier was drawn: if the renewal gets as far as
/// asking for the signature of the refresh token, that token bears an
/// identifier other than the one presented; the renewal then records that
/// identifier, and goes on to strike the one presented.
pub proof fn law_rotation_changes_token_id(
    draw: Draw,
    presented: RefreshTokenClaims,
    replies: Vec<crate::store::Reply>,
    user: UserQuery,
    token: String,
    refresh_token: String,
    verified: RenewalStep,
    checked: RenewalStep,
    found: RenewalStep,
    signed: RenewalStep,
    recorded: RenewalStep,
)
    requires
        (Renewal::Verifying { draw }).next(AuthEvent::Claims(Ok(presented)), verified),
        verified is Ask ==> verified->Ask_flow.next(AuthEvent::Store(Ok(replies)), checked),
        checked is Ask ==> checked->Ask_flow.next(AuthEvent::User(Ok(user)), found),
        found is Ask ==> found->Ask_flow.next(AuthEvent::Signed(Ok(token)), signed),
        signed is Ask ==> signed->Ask_flow.next(AuthEvent::Signed(Ok(refresh_token)), recorded),
        verified is Ask && checked is Ask && found is Ask && signed is Ask,
    ensures
        signed->Ask_action is SignRefresh,
        signed->Ask_action->SignRefresh_0.jti@ == draw.token_id@,
        signed->Ask_action->SignRefresh_0.jti@ != presented.jti@,
        signed->Ask_action->SignRefresh_0.sub == user.id,
        asks_store(
            recorded,
            Renewal::Recording {
                presented: presented.jti,
                response: AuthResponse { email: user.email, refresh_token, token },
            },
            record_batch(draw.token_id@),
        ),
{
}

/// A replayed token is refused. A renewal that finds the presented
/// identifier off the record, as it is after the rotation that consumed it,
/// ends as unauthorized, whatever else the request holds.
pub proof fn law_replay_is_refused(
    presented: RefreshTokenClaims,
    draw: Draw,
    replies: Vec<crate::store::Reply>,
    step: RenewalStep,
)
    requires
        replies.deep_view() == seq![ReplyView::Integer(0)],
        (Renewal::Checking { claims: presented, draw }).next(AuthEvent::Store(Ok(replies)), step),
    ensures
        refused(step),
{
}

/// Every batch that the start of a session sends records a token
/// identifier.
pub proof fn law_sign_in_sends_traffic(flow: SignIn, event: AuthEvent, step: SignInStep)
    requires
        flow.next(event, step),
        batch_of(step) is Some,
    ensures
        is_traffic(batch_of(step)->Some_0),
{
    let batch = batch_of(step)->Some_0;
    match (flow, event) {
        (SignIn::Inserting { draw }, AuthEvent::User(Ok(user))) => {
            let sent = Traffic::RecordToken { token_id: draw.token_id@ };
            assert(sent.commands() == batch);
        },
        (SignIn::Finding { password, draw }, AuthEvent::Login(Ok(found))) => {
            let sent = Traffic::RecordToken { token_id: draw.token_id@ };
            assert(sent.commands() == batch);
        },
        _ => {},
    }
}

/// Every batch that a renewal sends checks, records or strikes a token
/// identifier.
pub proof fn law_renewal_sends_traffic(flow: Renewal, event: AuthEvent, step: RenewalStep)
    requires
        flow.next(event, step),
        batch_of(step) is Some,
    ensures
        is_traffic(batch_of(step)->Some_0),
{
    let batch = batch_of(step)->Some_0;
    match (flow, event) {
        (Renewal::Verifying { draw }, AuthEvent::Claims(Ok(presented))) => {
            let sent = Traffic::CheckToken { token_id: presented.jti@ };
            assert(sent.commands() == batch);
        },
        (
            Renewal::SigningRefresh { presented, email, token, fresh },
            AuthEvent::Signed(Ok(refresh_token)),
        ) => {
            let sent = Traffic::RecordToken { token_id: fresh@ };
            assert(sent.commands() == batch);
        },
        (Renewal::Recording { presented, response }, AuthEvent::Store(Ok(replies))) => {
            let sent = Traffic::RevokeToken { token_id: presented@ };
            assert(sent.commands() == batch);
        },
        _ => {},
    }
}

/// The password of a registration logs in. Where a registration asked for
/// the insert of a user, and a login with the same password finds the row
/// with the hash that was inserted, the login is not rejected: it goes on to
/// record its refresh token.
pub proof fn law_registered_password_logs_in(
    body: Register,
    registered: SignInStep,
    draw: Draw,
    later: Draw,
    found: LoginQuery,
    step: SignInStep,
)
    requires
        asks_insert(registered, body, draw),
        registered->Ask_action is InsertUser,
        found.password == registered->Ask_action->InsertUser_password_hash,
        (SignIn::Finding { password: body.password, draw: later }).next(
            AuthEvent::Login(Ok(found)),
            step,
        ),
    ensures
        asks_store(
            step,
            SignIn::Recording { user: UserQuery { email: found.email, id: found.id }, draw: later },
            record_batch(later.token_id@),
        ),
{
}

} // verus!
