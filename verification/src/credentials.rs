//! Judgements on credentials that are left to outside crates: whether a text
//! is an email address, how strong a password is, and password hashing.

use vstd::prelude::*;

verus! {

/// Whether the `validator` crate takes `text` for an email address.
pub uninterp spec fn email_is_valid(text: Seq<char>) -> bool;

/// The verdict of `bcrypt::verify` on a password and a stored hash: whether
/// they match, or `None` where the hash cannot be read.
pub uninterp spec fn bcrypt_verdict(password: Seq<char>, hash: Seq<char>) -> Option<bool>;

/// Highest strength score of a password.
pub const MAX_PASSWORD_SCORE: u8 = 4;

/// Lowest strength score of a password that is accepted.
pub const ACCEPTABLE_PASSWORD_SCORE: u8 = 3;

/// Number of characters in the text of a password hash.
pub const PASSWORD_HASH_LEN: usize = 60;

#[verifier::external_type_specification]
#[verifier::external_body]
pub struct ExBcryptError(bcrypt::BcryptError);

/// Asks whether a text is an email address.
///
/// Trusted: calls `validator::ValidateEmail::validate_email` on a `String`.
/// The contract names the answer, which depends on the text alone, and adds
/// that the empty text is no address.
#[verifier::external_body]
pub(crate) fn check_email(email: &String) -> (ok: bool)
    ensures
        ok == email_is_valid(email@),
        email@.len() == 0 ==> !ok,
{
    validator::ValidateEmail::validate_email(email)
}

/// Scores the strength of a password, given the user's email and name, from
/// 0 (weakest) to 4.
///
/// Trusted: calls `zxcvbn::zxcvbn` with the email and the name as user inputs
/// and converts the `Score` of the estimate to its number. The estimate
/// depends on the current year, so the contract claims only the range, and
/// that the empty password scores 0.
#[verifier::external_body]
pub(crate) fn password_score(password: &str, email: &str, name: &str) -> (score: u8)
    ensures
        score <= MAX_PASSWORD_SCORE,
        password@.len() == 0 ==> score == 0,
{
    u8::from(zxcvbn::zxcvbn(password, &[email, name]).score())
}

/// Hashes a password with a random salt, at the default cost.
///
/// Trusted: calls `bcrypt::hash` with `bcrypt::DEFAULT_COST`. The salt is
/// random, so the contract does not name the hash. It claims the length of
/// the hash text, and that the hash is one of the password: `bcrypt::verify`
/// reads cost and salt back out of the text, hashes the password with them
/// as `hash` did, and finds the same digest.
#[verifier::external_body]
pub(crate) fn hash_password(password: &str) -> (hashed: Result<String, bcrypt::BcryptError>)
    ensures
        hashed matches Ok(text) ==> text@.len() == PASSWORD_HASH_LEN,
        hashed matches Ok(text) ==> bcrypt_verdict(password@, text@) == Some(true),
{
    bcrypt::hash(password, bcrypt::DEFAULT_COST)
}

/// Checks a password against a stored hash.
///
/// Trusted: calls `bcrypt::verify`. The contract names the verdict, which
/// depends on the password and the hash alone.
#[verifier::external_body]
pub(crate) fn verify_password(password: &str, hash: &str) -> (verdict: Result<
    bool,
    bcrypt::BcryptError,
>)
    ensures
        match verdict {
            Ok(matches) => bcrypt_verdict(password@, hash@) == Some(matches),
            Err(_) => bcrypt_verdict(password@, hash@) is None,
        },
{
    bcrypt::verify(password, hash)
}

} // verus!
