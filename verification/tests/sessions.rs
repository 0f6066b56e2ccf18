use expense_tracker::errors::auth_errors::{AuthError, ValidationError};
use expense_tracker::errors::errors::UserError;
use expense_tracker::errors::store_errors::DbFailure;
use expense_tracker::flow::Step;
use expense_tracker::keys::{refresh_token_key, REFRESH_TTL_SECONDS};
use expense_tracker::memory::MemoryStore;
use expense_tracker::models::auth_models::{AuthResponse, Login, LoginQuery, Register, UserQuery};
use expense_tracker::models::user_model::{CreateUser, UserResponse};
use expense_tracker::rotation::{check_commands, record_commands, revoke_commands};
use expense_tracker::services::auth_services::{
    AuthAction, AuthEvent, AuthService, Draw, Renewal, SignIn,
};
use expense_tracker::services::jwt_services::{JwtService, RefreshTokenClaims};
use expense_tracker::services::user_services::{UserAction, UserEvent, UserService};
use expense_tracker::store::{Command, Reply};

const STRONG: &str = "Tr0ub4dor&3-Zebra-Quilt-92!x";
const NOW: i64 = 1_700_000_000;

struct User {
    id: u128,
    email: String,
    password_hash: String,
}

/// A user table and a key-value store in memory, with a signer that writes
/// the claims out in the clear.
struct World {
    store: MemoryStore,
    store_down: bool,
    users: Vec<User>,
    jwt: JwtService,
    asked: Vec<String>,
    drawn: u32,
}

fn sign_refresh(claims: &RefreshTokenClaims) -> String {
    format!("refresh.{}.{}.{}.{}", claims.jti, claims.sub, claims.iat, claims.exp)
}

fn verify_refresh(token: &str, now: i64) -> Result<RefreshTokenClaims, String> {
    let parts: Vec<&str> = token.split('.').collect();
    if parts.len() != 5 || parts[0] != "refresh" {
        return Err("malformed token".to_string());
    }
    let bad = |_| "malformed number".to_string();
    let claims = RefreshTokenClaims {
        jti: parts[1].to_string(),
        sub: parts[2].parse().map_err(bad)?,
        iat: parts[3].parse().map_err(bad)?,
        exp: parts[4].parse().map_err(bad)?,
    };
    if claims.exp < now {
        return Err("expired".to_string());
    }
    Ok(claims)
}

impl World {
    fn new() -> World {
        World {
            store: MemoryStore::new(),
            store_down: false,
            users: Vec::new(),
            jwt: JwtService::new("secret".to_string()),
            asked: Vec::new(),
            drawn: 0,
        }
    }

    fn draw(&mut self) -> Draw {
        self.drawn += 1;
        Draw { token_id: format!("token-{}", self.drawn), now: NOW }
    }

    fn perform(&mut self, action: AuthAction) -> AuthEvent {
        match action {
            AuthAction::Store(batch) => {
                self.asked.push("store".to_string());
                if self.store_down {
                    return AuthEvent::Store(Err("store is down".to_string()));
                }
                AuthEvent::Store(self.store.execute_all(&batch))
            }
            AuthAction::InsertUser { email, name: _, password_hash } => {
                self.asked.push("insert user".to_string());
                if self.users.iter().any(|u| u.email == email) {
                    return AuthEvent::User(Err(DbFailure::Database {
                        code: Some("23505".to_string()),
                        message: "duplicate key value violates unique constraint".to_string(),
                    }));
                }
                let id = 1000 + self.users.len() as u128;
                self.users.push(User { id, email: email.clone(), password_hash });
                AuthEvent::User(Ok(UserQuery { email, id }))
            }
            AuthAction::FindUserByEmail { email } => {
                self.asked.push("find by email".to_string());
                match self.users.iter().find(|u| u.email == email) {
                    None => AuthEvent::Login(Err(DbFailure::RowNotFound)),
                    Some(user) => AuthEvent::Login(Ok(LoginQuery {
                        email: user.email.clone(),
                        id: user.id,
                        password: user.password_hash.clone(),
                    })),
                }
            }
            AuthAction::FindUserById { id } => {
                self.asked.push("find by id".to_string());
                match self.users.iter().find(|u| u.id == id) {
                    None => AuthEvent::User(Err(DbFailure::RowNotFound)),
                    Some(user) => AuthEvent::User(Ok(UserQuery { email: user.email.clone(), id })),
                }
            }
            AuthAction::VerifyRefreshToken(token) => {
                AuthEvent::Claims(verify_refresh(&token, NOW))
            }
            AuthAction::SignAccess(claims) => {
                self.asked.push("sign access".to_string());
                AuthEvent::Signed(Ok(format!("access.{}.{}.{}", claims.sub, claims.iat, claims.exp)))
            }
            AuthAction::SignRefresh(claims) => {
                self.asked.push("sign refresh".to_string());
                AuthEvent::Signed(Ok(sign_refresh(&claims)))
            }
        }
    }

    fn sign_in(
        &mut self,
        first: Step<SignIn, AuthAction, Result<AuthResponse, AuthError>>,
    ) -> Result<AuthResponse, AuthError> {
        let mut step = first;
        loop {
            match step {
                Step::Done { result } => return result,
                Step::Ask { flow, action } => {
                    let event = self.perform(action);
                    step = flow.step(event, &self.jwt);
                }
            }
        }
    }

    fn register(&mut self, email: &str, password: &str) -> Result<AuthResponse, AuthError> {
        let draw = self.draw();
        let body = Register {
            email: email.to_string(),
            name: "Ada Lovelace".to_string(),
            password: password.to_string(),
        };
        self.sign_in(AuthService::register(body, draw))
    }

    fn login(&mut self, email: &str, password: &str) -> Result<AuthResponse, AuthError> {
        let draw = self.draw();
        let body = Login { email: email.to_string(), password: password.to_string() };
        self.sign_in(AuthService::login(body, draw))
    }

    fn refresh_with(&mut self, cookie: Option<String>, draw: Draw) -> Result<AuthResponse, AuthError> {
        let mut step = AuthService::refresh(cookie, draw);
        loop {
            match step {
                Step::Done { result } => return result,
                Step::Ask { flow, action } => {
                    let event = self.perform(action);
                    step = flow.step(event, &self.jwt);
                }
            }
        }
    }

    fn refresh(&mut self, cookie: &str) -> Result<AuthResponse, AuthError> {
        let draw = self.draw();
        self.refresh_with(Some(cookie.to_string()), draw)
    }
}

fn token_id_of(refresh_token: &str) -> String {
    verify_refresh(refresh_token, NOW).unwrap().jti
}

#[test]
fn registration_hands_out_a_pair_and_records_the_refresh_token() {
    let mut world = World::new();
    let response = world.register("ada@example.com", STRONG).unwrap();
    assert_eq!(response.email, "ada@example.com");
    assert_eq!(response.token, format!("access.1000.{}.{}", NOW, NOW + 15));
    assert_eq!(
        response.refresh_token,
        format!("refresh.token-1.1000.{}.{}", NOW, NOW + 604800)
    );
    assert_eq!(world.store.get(&refresh_token_key("token-1")), Some("token-1".to_string()));
    assert_eq!(world.asked, vec!["insert user", "store", "sign access", "sign refresh"]);
    assert_eq!(world.users.len(), 1);
    assert_eq!(world.users[0].password_hash.len(), 60);
    assert!(bcrypt::verify(STRONG, &world.users[0].password_hash).unwrap());
}

#[test]
fn registration_with_a_weak_password_inserts_nothing_and_issues_nothing() {
    let mut world = World::new();
    let result = world.register("ada@example.com", "password");
    assert!(matches!(result, Err(AuthError::Validation(ValidationError::WeakPassword))));
    assert!(world.asked.is_empty());
    assert!(world.users.is_empty());
    assert_eq!(world.store.get(&refresh_token_key("token-1")), None);
}

#[test]
fn registering_the_same_email_twice_is_a_conflict() {
    let mut world = World::new();
    world.register("ada@example.com", STRONG).unwrap();
    world.asked.clear();
    let second = world.register("ada@example.com", STRONG);
    assert!(matches!(second, Err(AuthError::DuplicateEmail)));
    assert_eq!(world.asked, vec!["insert user"]);
    assert_eq!(world.users.len(), 1);
    assert_eq!(world.store.get(&refresh_token_key("token-2")), None);
}

#[test]
fn registration_fails_as_a_whole_where_the_record_cannot_be_written() {
    let mut world = World::new();
    world.store_down = true;
    match world.register("ada@example.com", STRONG) {
        Err(AuthError::Internal(cause)) => assert_eq!(cause, "store is down"),
        _ => panic!("expected an internal failure"),
    }
    assert_eq!(world.asked, vec!["insert user", "store"]);
}

#[test]
fn login_checks_the_password_against_the_stored_hash() {
    let mut world = World::new();
    world.register("ada@example.com", STRONG).unwrap();
    world.asked.clear();
    let response = world.login("ada@example.com", STRONG).unwrap();
    assert_eq!(response.email, "ada@example.com");
    assert_eq!(token_id_of(&response.refresh_token), "token-2");
    assert_eq!(world.store.get(&refresh_token_key("token-2")), Some("token-2".to_string()));
    assert_eq!(world.asked, vec!["find by email", "store", "sign access", "sign refresh"]);

    world.asked.clear();
    let wrong = world.login("ada@example.com", "not the password");
    assert!(matches!(wrong, Err(AuthError::InvalidCredentials)));
    assert_eq!(world.asked, vec!["find by email"]);
}

#[test]
fn login_of_an_unknown_user_is_refused() {
    let mut world = World::new();
    assert!(matches!(
        world.login("nobody@example.com", "longenough"),
        Err(AuthError::InvalidCredentials)
    ));
    assert!(matches!(
        world.login("nobody", "longenough"),
        Err(AuthError::Validation(ValidationError::InvalidEmail))
    ));
    assert!(matches!(
        world.login("nobody@example.com", "short"),
        Err(AuthError::Validation(ValidationError::WeakPassword))
    ));
}

#[test]
fn login_against_a_hash_that_cannot_be_read_is_an_internal_failure() {
    let mut world = World::new();
    world.users.push(User {
        id: 7,
        email: "ada@example.com".to_string(),
        password_hash: "not a hash".to_string(),
    });
    match world.login("ada@example.com", "longenough") {
        Err(AuthError::Internal(cause)) => assert_eq!(cause, "failed to verify password hash"),
        _ => panic!("expected an internal failure"),
    }
}

#[test]
fn a_renewal_rotates_the_refresh_token() {
    let mut world = World::new();
    let session = world.register("ada@example.com", STRONG).unwrap();
    world.asked.clear();
    let renewed = world.refresh(&session.refresh_token).unwrap();
    assert_eq!(renewed.email, "ada@example.com");
    assert_eq!(token_id_of(&renewed.refresh_token), "token-2");
    assert_ne!(token_id_of(&renewed.refresh_token), token_id_of(&session.refresh_token));
    assert_eq!(world.store.get(&refresh_token_key("token-1")), None);
    assert_eq!(world.store.get(&refresh_token_key("token-2")), Some("token-2".to_string()));
    assert_eq!(
        world.asked,
        vec!["store", "find by id", "sign access", "sign refresh", "store", "store"]
    );
}

#[test]
fn a_consumed_refresh_token_is_refused() {
    let mut world = World::new();
    let session = world.register("ada@example.com", STRONG).unwrap();
    world.refresh(&session.refresh_token).unwrap();
    world.asked.clear();
    let replay = world.refresh(&session.refresh_token);
    assert!(matches!(replay, Err(AuthError::Unauthorized)));
    assert_eq!(world.asked, vec!["store"]);
    assert_eq!(world.store.get(&refresh_token_key("token-3")), None);
}

#[test]
fn each_refresh_token_renews_once_along_the_lineage() {
    let mut world = World::new();
    let mut current = world.register("ada@example.com", STRONG).unwrap().refresh_token;
    let mut spent = Vec::new();
    for _ in 0..5 {
        let next = world.refresh(&current).unwrap().refresh_token;
        assert_ne!(token_id_of(&next), token_id_of(&current));
        spent.push(current);
        current = next;
        for old in spent.iter() {
            assert!(matches!(world.refresh(old), Err(AuthError::Unauthorized)));
        }
    }
}

#[test]
fn a_token_whose_record_expired_is_refused() {
    let mut world = World::new();
    let session = world.register("ada@example.com", STRONG).unwrap();
    world.store.expire(&refresh_token_key("token-1"));
    assert!(matches!(world.refresh(&session.refresh_token), Err(AuthError::Unauthorized)));
}

#[test]
fn a_token_that_does_not_verify_is_refused_before_any_store_is_asked() {
    let mut world = World::new();
    assert!(matches!(world.refresh("garbage"), Err(AuthError::Unauthorized)));
    let expired = format!("refresh.token-9.1000.{}.{}", NOW - 700000, NOW - 1);
    assert!(matches!(world.refresh(&expired), Err(AuthError::Unauthorized)));
    let draw = world.draw();
    assert!(matches!(world.refresh_with(None, draw), Err(AuthError::Unauthorized)));
    assert!(world.asked.is_empty());
}

#[test]
fn a_renewal_for_a_user_who_is_gone_is_refused() {
    let mut world = World::new();
    let session = world.register("ada@example.com", STRONG).unwrap();
    world.users.clear();
    assert!(matches!(world.refresh(&session.refresh_token), Err(AuthError::InvalidCredentials)));
    assert_eq!(world.store.get(&refresh_token_key("token-1")), Some("token-1".to_string()));
}

#[test]
fn a_renewal_fails_where_the_store_fails() {
    let mut world = World::new();
    let session = world.register("ada@example.com", STRONG).unwrap();
    world.store_down = true;
    match world.refresh(&session.refresh_token) {
        Err(AuthError::Internal(cause)) => assert_eq!(cause, "store is down"),
        _ => panic!("expected an internal failure"),
    }
    world.store_down = false;
    assert!(world.refresh(&session.refresh_token).is_ok());
}

#[test]
fn the_new_record_is_written_before_the_old_one_is_struck() {
    let claims = RefreshTokenClaims { sub: 5, exp: NOW + 1, iat: NOW, jti: "old".to_string() };
    let flow = Renewal::SigningRefresh {
        presented: claims.jti,
        email: "ada@example.com".to_string(),
        token: "access".to_string(),
        fresh: "new".to_string(),
    };
    let jwt = JwtService::new("secret".to_string());
    let flow = match flow.step(AuthEvent::Signed(Ok("signed".to_string())), &jwt) {
        Step::Ask { flow, action: AuthAction::Store(batch) } => {
            assert_eq!(batch.len(), 1);
            match &batch[0] {
                Command::SetEx { key, value, ttl_seconds } => {
                    assert_eq!(key, "refresh:new");
                    assert_eq!(value, "new");
                    assert_eq!(*ttl_seconds, REFRESH_TTL_SECONDS);
                }
                _ => panic!("the new identifier is recorded"),
            }
            flow
        }
        _ => panic!("the new identifier is recorded"),
    };
    let flow = match flow.step(AuthEvent::Store(Ok(vec![Reply::Okay])), &jwt) {
        Step::Ask { flow, action: AuthAction::Store(batch) } => {
            assert_eq!(batch.len(), 1);
            assert!(matches!(&batch[0], Command::Delete { key } if key == "refresh:old"));
            flow
        }
        _ => panic!("the old identifier is struck"),
    };
    match flow.step(AuthEvent::Store(Ok(vec![Reply::Integer(1)])), &jwt) {
        Step::Done { result: Ok(response) } => {
            assert_eq!(response.refresh_token, "signed");
            assert_eq!(response.token, "access");
            assert_eq!(response.email, "ada@example.com");
        }
        _ => panic!("the renewal ends with the new pair"),
    }
}

#[test]
fn the_batches_of_token_records_are_single_commands() {
    let id = "abc".to_string();
    let batch = record_commands(&id);
    assert!(matches!(
        &batch[..],
        [Command::SetEx { key, value, ttl_seconds: 604800 }] if key == "refresh:abc" && value == "abc"
    ));
    assert!(matches!(&check_commands(&id)[..], [Command::Exists { key }] if key == "refresh:abc"));
    assert!(matches!(&revoke_commands(&id)[..], [Command::Delete { key }] if key == "refresh:abc"));
}

#[test]
fn a_draw_holds_a_hyphenated_identifier() {
    let first = Draw::take();
    let second = Draw::take();
    assert_eq!(first.token_id.len(), 36);
    assert!(uuid::Uuid::parse_str(&first.token_id).is_ok());
    assert_ne!(first.token_id, second.token_id);
    assert!(first.now > 1_600_000_000);
    assert!(second.now >= first.now);
}

#[test]
fn tokens_are_not_signed_where_their_expiry_cannot_be_written() {
    let mut world = World::new();
    world.users.push(User {
        id: 7,
        email: "ada@example.com".to_string(),
        password_hash: bcrypt::hash("longenough", 4).unwrap(),
    });
    let body = Login { email: "ada@example.com".to_string(), password: "longenough".to_string() };
    let draw = Draw { token_id: "late".to_string(), now: i64::MAX - 10 };
    match world.sign_in(AuthService::login(body, draw)) {
        Err(AuthError::Internal(cause)) => assert_eq!(cause, "token expiry is out of range"),
        _ => panic!("expected an internal failure"),
    }
    assert!(!world.asked.contains(&"sign access".to_string()));
}

#[test]
fn a_plain_user_is_created_with_a_hashed_password() {
    let new_user = CreateUser {
        email: "ada@example.com".to_string(),
        name: "Ada".to_string(),
        password: STRONG.to_string(),
    };
    let flow = match UserService::create_user(new_user) {
        Step::Ask { flow, action: UserAction::Insert { email, name, password_hash } } => {
            assert_eq!(email, "ada@example.com");
            assert_eq!(name, "Ada");
            assert!(bcrypt::verify(STRONG, &password_hash).unwrap());
            flow
        }
        _ => panic!("a valid request asks for the insert"),
    };
    let row = UserResponse { email: "ada@example.com".to_string(), name: "Ada".to_string(), uuid: 3 };
    match flow.step(UserEvent::Row(Ok(row))) {
        Step::Done { result: Ok(user) } => assert_eq!(user.uuid, 3),
        _ => panic!("the creation ends with the row"),
    }
}

#[test]
fn a_plain_user_with_a_taken_email_is_a_conflict() {
    let new_user = || CreateUser {
        email: "ada@example.com".to_string(),
        name: "Ada".to_string(),
        password: STRONG.to_string(),
    };
    let flow = || match UserService::create_user(new_user()) {
        Step::Ask { flow, .. } => flow,
        _ => panic!("a valid request asks for the insert"),
    };
    let refused = UserEvent::Row(Err(DbFailure::Database {
        code: Some("23505".to_string()),
        message: "duplicate".to_string(),
    }));
    assert!(matches!(flow().step(refused), Step::Done { result: Err(UserError::DuplicateEmail) }));
    let failed = UserEvent::Row(Err(DbFailure::Other { message: "timeout".to_string() }));
    match flow().step(failed) {
        Step::Done { result: Err(UserError::Internal(cause)) } => assert_eq!(cause, "timeout"),
        _ => panic!("expected an internal failure"),
    }
    let weak = CreateUser {
        email: "ada@example.com".to_string(),
        name: "Ada".to_string(),
        password: "password".to_string(),
    };
    assert!(matches!(
        UserService::create_user(weak),
        Step::Done { result: Err(UserError::WeakPassword) }
    ));
}

#[test]
fn a_password_that_cannot_be_hashed_is_an_internal_failure() {
    let body = Register {
        email: "ada@example.com".to_string(),
        name: "Ada".to_string(),
        password: STRONG.to_string(),
    };
    let draw = Draw { token_id: "token-1".to_string(), now: NOW };
    match AuthService::enrol(body, Err(bcrypt::BcryptError::CostNotAllowed(1)), draw) {
        Step::Done { result: Err(AuthError::Internal(cause)) } => {
            assert_eq!(cause, "failed to hash password")
        }
        _ => panic!("expected an internal failure"),
    }
    let new_user = CreateUser {
        email: "ada@example.com".to_string(),
        name: "Ada".to_string(),
        password: STRONG.to_string(),
    };
    match UserService::enrol(new_user, Err(bcrypt::BcryptError::CostNotAllowed(1))) {
        Step::Done { result: Err(UserError::Internal(cause)) } => {
            assert_eq!(cause, "failed to hash password")
        }
        _ => panic!("expected an internal failure"),
    }
}

#[test]
fn a_hash_handed_in_is_the_hash_inserted() {
    let body = Register {
        email: "ada@example.com".to_string(),
        name: "Ada".to_string(),
        password: STRONG.to_string(),
    };
    let draw = Draw { token_id: "token-1".to_string(), now: NOW };
    match AuthService::enrol(body, Ok("hashed".to_string()), draw) {
        Step::Ask { action: AuthAction::InsertUser { email, name, password_hash }, .. } => {
            assert_eq!(email, "ada@example.com");
            assert_eq!(name, "Ada");
            assert_eq!(password_hash, "hashed");
        }
        _ => panic!("the insert follows"),
    }
}

#[test]
fn a_draw_that_repeats_the_identifier_of_a_live_token_is_refused() {
    let mut world = World::new();
    let session = world.register("ada@example.com", STRONG).unwrap();
    world.asked.clear();
    let repeated = Draw { token_id: "token-1".to_string(), now: NOW };
    match world.refresh_with(Some(session.refresh_token.clone()), repeated) {
        Err(AuthError::Internal(cause)) => {
            assert_eq!(cause, "drawn token identifier repeats the presented one")
        }
        _ => panic!("expected an internal failure"),
    }
    assert_eq!(world.asked, vec!["store"]);
    assert_eq!(world.store.get(&refresh_token_key("token-1")), Some("token-1".to_string()));
    let renewed = world.refresh(&session.refresh_token).unwrap();
    assert_ne!(token_id_of(&renewed.refresh_token), "token-1");
}

#[test]
fn a_replay_is_unauthorized_whatever_is_drawn() {
    let mut world = World::new();
    let session = world.register("ada@example.com", STRONG).unwrap();
    world.refresh(&session.refresh_token).unwrap();
    for drawn in ["token-1", "token-2", "another"] {
        world.asked.clear();
        let draw = Draw { token_id: drawn.to_string(), now: NOW };
        let replay = world.refresh_with(Some(session.refresh_token.clone()), draw);
        assert!(matches!(replay, Err(AuthError::Unauthorized)));
        assert_eq!(world.asked, vec!["store"]);
        assert_eq!(world.store.get(&refresh_token_key("token-1")), None);
    }
    let unverified = Draw { token_id: "garbage".to_string(), now: NOW };
    assert!(matches!(
        world.refresh_with(Some("garbage".to_string()), unverified),
        Err(AuthError::Unauthorized)
    ));
}

#[test]
fn the_hash_inserted_is_one_of_the_password() {
    let body = Register {
        email: "ada@example.com".to_string(),
        name: "Ada".to_string(),
        password: STRONG.to_string(),
    };
    let draw = Draw { token_id: "token-1".to_string(), now: NOW };
    match AuthService::register_scored(body, true, 4, draw) {
        Step::Ask { action: AuthAction::InsertUser { email, password_hash, .. }, .. } => {
            assert_ne!(password_hash, STRONG);
            assert!(bcrypt::verify(STRONG, &password_hash).unwrap());
            assert!(!bcrypt::verify(&email, &password_hash).unwrap());
        }
        _ => panic!("the insert follows"),
    }
}

#[test]
fn a_rotation_leaves_the_records_of_other_sessions_alone() {
    let mut world = World::new();
    let ada = world.register("ada@example.com", STRONG).unwrap();
    let bob = world.register("bob@example.com", STRONG).unwrap();
    world.refresh(&ada.refresh_token).unwrap();
    assert_eq!(world.store.get(&refresh_token_key("token-1")), None);
    assert_eq!(world.store.get(&refresh_token_key("token-2")), Some("token-2".to_string()));
    assert_eq!(world.store.get(&refresh_token_key("token-3")), Some("token-3".to_string()));
    assert!(world.refresh(&bob.refresh_token).is_ok());
    world.login("ada@example.com", STRONG).unwrap();
    assert!(matches!(world.refresh(&ada.refresh_token), Err(AuthError::Unauthorized)));
}

#[test]
fn a_registration_is_refused_for_the_score_it_was_given() {
    let body = || Register {
        email: "ada@example.com".to_string(),
        name: "Ada".to_string(),
        password: STRONG.to_string(),
    };
    let draw = || Draw { token_id: "token-1".to_string(), now: NOW };
    for score in 0..3 {
        assert!(matches!(
            AuthService::register_scored(body(), true, score, draw()),
            Step::Done { result: Err(AuthError::Validation(ValidationError::WeakPassword)) }
        ));
    }
    for score in 3..5 {
        assert!(matches!(
            AuthService::register_scored(body(), true, score, draw()),
            Step::Ask { action: AuthAction::InsertUser { .. }, .. }
        ));
    }
    assert!(matches!(
        AuthService::register_scored(body(), false, 4, draw()),
        Step::Done { result: Err(AuthError::Validation(ValidationError::InvalidEmail)) }
    ));
    let new_user = || CreateUser {
        email: "ada@example.com".to_string(),
        name: "Ada".to_string(),
        password: STRONG.to_string(),
    };
    assert!(matches!(
        UserService::create_user_scored(new_user(), true, 2),
        Step::Done { result: Err(UserError::WeakPassword) }
    ));
    assert!(matches!(
        UserService::create_user_scored(new_user(), true, 3),
        Step::Ask { action: UserAction::Insert { .. }, .. }
    ));
}
