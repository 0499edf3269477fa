//! Login and token checks: the credential comparison (user name folded,
//! password exact) and the expiry check of a decoded token's claims.
//! Producing and decoding the signed token itself is cryptography done
//! outside the library; only its claims are judged here.

use vstd::prelude::*;

use crate::error::LoginError;
use crate::text::{lower_of, lowercase};

verus! {

/// Seconds a fresh token stays valid.
pub const TOKEN_TTL_SECONDS: i64 = 600;

/// The credentials a login request carries.
pub struct LoginData {
    pub username: String,
    pub password: String,
}

/// The claims carried inside the signed token.
#[derive(Debug, Clone, Copy, PartialEq, Eq, Structural)]
pub struct Claims {
    pub loged_in: bool,
    pub exp: i64,
}

impl Claims {
    /// Fresh claims: logged in, expiring one TTL from now.
    pub fn new(now_unix: i64) -> (r: Claims)
        requires
            now_unix <= i64::MAX - TOKEN_TTL_SECONDS,
        ensures
            r.loged_in == true,
            r.exp == now_unix + TOKEN_TTL_SECONDS,
    {
        Claims { loged_in: true, exp: now_unix + TOKEN_TTL_SECONDS }
    }

    /// A token is valid exactly while its expiry lies in the future; an
    /// expiry at or before now is rejected as an invalid token.
    pub fn validate(&self, now_unix: i64) -> (r: Result<(), LoginError>)
        ensures
            r is Ok <==> self.exp > now_unix,
            r is Err ==> r == Result::<(), LoginError>::Err(LoginError::InvalidToken),
    {
        if self.exp > now_unix {
            Ok(())
        } else {
            Err(LoginError::InvalidToken)
        }
    }
}

/// Compares the presented credentials with the expected ones: the user
/// name case-insensitively (both sides case-folded), the password exactly.
/// Any mismatch is answered with `WrongCredentials`; empty credentials
/// against a non-empty expectation never match.
pub fn check_credentials(input: &LoginData, expected_username: &String, expected_password: &String)
    -> (r: Result<(), LoginError>)
    ensures
        r is Ok <==> lower_of(input.username@) == lower_of(expected_username@) && input.password@
            == expected_password@,
        r is Err ==> r == Result::<(), LoginError>::Err(LoginError::WrongCredentials),
        expected_username@.len() > 0 && input.username@.len() == 0 ==> r is Err,
        expected_password@.len() > 0 && input.password@.len() == 0 ==> r is Err,
{
    let in_username = lowercase(input.username.as_str());
    let ref_username = lowercase(expected_username.as_str());
    if !(in_username == ref_username) {
        return Err(LoginError::WrongCredentials);
    }
    if !(input.password == *expected_password) {
        return Err(LoginError::WrongCredentials);
    }
    Ok(())
}

} // verus!
