//! Admission of a request by its access token. The token is stateless: no
//! store is asked, and a token that verifies admits its subject.

use vstd::prelude::*;
use crate::services::jwt_services::TokenClaims;

verus! {

/// The user that a request was admitted for.
#[derive(Clone, Copy, Debug)]
pub struct AuthMiddleware {
    pub uuid: u128,
}

/// Why a request was not admitted.
#[derive(Clone, Copy, Debug, PartialEq, Eq, Structural)]
pub enum Denial {
    /// The request carries no access token.
    MissingToken,
    /// The access token does not verify.
    InvalidToken,
}

impl Denial {
    /// The text shown to the caller.
    pub open spec fn message_spec(self) -> Seq<char> {
        match self {
            Denial::MissingToken => "Missing token"@,
            Denial::InvalidToken => "Invalid token"@,
        }
    }

    /// Writes the text shown to the caller.
    pub fn message(&self) -> (text: String)
        ensures
            text@ == self.message_spec(),
    {
        match self {
            Denial::MissingToken => String::from_str("Missing token"),
            Denial::InvalidToken => String::from_str("Invalid token"),
        }
    }
}

impl AuthMiddleware {
    /// Admits a request, given what came of verifying the access token it
    /// carries: `None` where it carries none.
    pub fn from_request(verified: Option<Result<TokenClaims, String>>) -> (admitted: Result<
        AuthMiddleware,
        Denial,
    >)
        ensures
            match verified {
                None => admitted == Err::<AuthMiddleware, Denial>(Denial::MissingToken),
                Some(Err(_)) => admitted == Err::<AuthMiddleware, Denial>(Denial::InvalidToken),
                Some(Ok(claims)) => admitted == Ok::<AuthMiddleware, Denial>(
                    AuthMiddleware { uuid: claims.sub },
                ),
            },
    {
        match verified {
            None => Err(Denial::MissingToken),
            Some(Err(_)) => Err(Denial::InvalidToken),
            Some(Ok(claims)) => Ok(AuthMiddleware { uuid: claims.sub }),
        }
    }
}

} // verus!
