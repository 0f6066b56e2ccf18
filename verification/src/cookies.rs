//! The cookies that carry the tokens of a session.

use vstd::prelude::*;

verus! {

/// Seconds that the cookie of the access token lives: fifteen minutes.
pub const ACCESS_COOKIE_SECONDS: i64 = 900;

/// Seconds that the cookie of the refresh token lives: seven days.
pub const REFRESH_COOKIE_SECONDS: i64 = 604800;

/// A cookie to set on a response.
#[derive(Debug)]
pub struct SessionCookie {
    pub name: String,
    pub value: String,
    /// Hidden from scripts.
    pub http_only: bool,
    /// Sent over secure connections only.
    pub secure: bool,
    /// Sent with same-site requests only.
    pub same_site_strict: bool,
    /// The path that the cookie is sent to.
    pub path: String,
    pub max_age_seconds: i64,
}

impl SessionCookie {
    /// Whether the cookie is kept from scripts, from insecure connections
    /// and from cross-site requests.
    pub open spec fn guarded(&self) -> bool {
        self.http_only && self.secure && self.same_site_strict
    }
}

/// Builds the cookie of an access token: sent to every path, for fifteen
/// minutes.
pub fn set_cookie_token(token: String) -> (cookie: SessionCookie)
    ensures
        cookie.name@ == "token"@,
        cookie.value == token,
        cookie.guarded(),
        cookie.path@ == "/"@,
        cookie.max_age_seconds == ACCESS_COOKIE_SECONDS,
{
    SessionCookie {
        name: String::from_str("token"),
        value: token,
        http_only: true,
        secure: true,
        same_site_strict: true,
        path: String::from_str("/"),
        max_age_seconds: ACCESS_COOKIE_SECONDS,
    }
}

/// Builds the cookie of a refresh token: sent to the renewal path only, for
/// seven days.
pub fn set_cookie_refresh_token(refresh_token: String) -> (cookie: SessionCookie)
    ensures
        cookie.name@ == "refresh_token"@,
        cookie.value == refresh_token,
        cookie.guarded(),
        cookie.path@ == "/api/user/refresh"@,
        cookie.max_age_seconds == REFRESH_COOKIE_SECONDS,
{
    SessionCookie {
        name: String::from_str("refresh_token"),
        value: refresh_token,
        http_only: true,
        secure: true,
        same_site_strict: true,
        path: String::from_str("/api/user/refresh"),
        max_age_seconds: REFRESH_COOKIE_SECONDS,
    }
}

} // verus!
