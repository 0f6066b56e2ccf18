//! The claims of access and refresh tokens. Signing and verifying the
//! tokens is the caller's part; what they assert is decided here.

use vstd::prelude::*;

verus! {

/// Seconds that an access token is valid.
pub const ACCESS_TTL_SECONDS: i64 = 15;

/// Seconds that a refresh token is valid: seven days.
pub const REFRESH_TOKEN_TTL_SECONDS: i64 = 604800;

/// What a refresh token asserts: its subject, when it expires, when it was
/// issued, and its identifier.
#[derive(Debug)]
pub struct RefreshTokenClaims {
    pub sub: u128,
    pub exp: i64,
    pub iat: i64,
    pub jti: String,
}

/// What an access token asserts: its subject, when it expires and when it
/// was issued.
#[derive(Clone, Copy, Debug)]
pub struct TokenClaims {
    pub sub: u128,
    pub exp: i64,
    pub iat: i64,
}

/// The holder of the secret that tokens are signed with.
#[derive(Debug)]
pub struct JwtService {
    secret: String,
}

impl JwtService {
    /// The secret that tokens are signed with.
    pub closed spec fn secret_spec(&self) -> Seq<char> {
        self.secret@
    }

    /// Keeps the secret.
    pub fn new(secret: String) -> (service: Self)
        ensures
            service.secret_spec() == secret@,
    {
        Self { secret }
    }

    /// Hands out the secret for signing and verifying.
    pub fn secret(&self) -> (secret: &str)
        ensures
            secret@ == self.secret_spec(),
    {
        self.secret.as_str()
    }

    /// Decides the claims of an access token issued at `now`, or `None`
    /// where its expiry would lie beyond the last second that can be
    /// written.
    pub fn create_access_token(&self, sub: u128, now: i64) -> (claims: Option<TokenClaims>)
        ensures
            match claims {
                Some(c) => c.sub == sub && c.exp == now + ACCESS_TTL_SECONDS && c.iat == now,
                None => now + ACCESS_TTL_SECONDS > i64::MAX,
            },
    {
        if now > i64::MAX - ACCESS_TTL_SECONDS {
            None
        } else {
            Some(TokenClaims { sub, exp: now + ACCESS_TTL_SECONDS, iat: now })
        }
    }

    /// Decides the claims of a refresh token with the identifier `jti`
    /// issued at `now`, or `None` where its expiry would lie beyond the last
    /// second that can be written.
    pub fn create_refresh_token(&self, jti: &str, sub: u128, now: i64) -> (claims: Option<
        RefreshTokenClaims,
    >)
        ensures
            match claims {
                Some(c) => c.sub == sub && c.exp == now + REFRESH_TOKEN_TTL_SECONDS && c.iat == now
                    && c.jti@ == jti@,
                None => now + REFRESH_TOKEN_TTL_SECONDS > i64::MAX,
            },
    {
        if now > i64::MAX - REFRESH_TOKEN_TTL_SECONDS {
            None
        } else {
            Some(
                RefreshTokenClaims {
                    sub,
                    exp: now + REFRESH_TOKEN_TTL_SECONDS,
                    iat: now,
                    jti: String::from_str(jti),
                },
            )
        }
    }
}

} // verus!
