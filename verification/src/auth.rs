//! Who may ask for a token, and what the token claims. Signing and
//! checking tokens is the caller's part.

use vstd::prelude::*;
use crate::error::AppError;

verus! {

broadcast use vstd::string::group_string_axioms;

/// The one client id that is known.
pub const CLIENT_ID: &'static str = "foo";

/// The secret of the known client.
pub const CLIENT_SECRET: &'static str = "bar";

/// When every token expires, in seconds since the Unix epoch.
pub const TOKEN_EXPIRY: u64 = 10000000000;

/// The credentials that a client presents.
#[derive(Debug, PartialEq, Eq)]
pub struct AuthParams {
    pub client_id: String,
    pub client_secret: String,
}

/// What a token claims: its subject and when it expires.
#[derive(Debug, PartialEq, Eq)]
pub struct Claims {
    pub sub: String,
    pub exp: u64,
}

impl Clone for Claims {
    fn clone(&self) -> (r: Self)
        ensures
            r == *self,
    {
        Claims { sub: self.sub.clone(), exp: self.exp }
    }
}

/// Why credentials are turned down, if they are: one of them is empty,
/// or they are not those of the known client.
pub open spec fn credentials_refusal(client_id: Seq<char>, client_secret: Seq<char>) -> Option<
    AppError,
> {
    if client_id.len() == 0 || client_secret.len() == 0 {
        Some(AppError::MissingCredentials)
    } else if client_id != CLIENT_ID@ || client_secret != CLIENT_SECRET@ {
        Some(AppError::WrongCredentials)
    } else {
        None
    }
}

/// Checks the credentials and makes the claims of the token to issue.
pub fn authorize(params: AuthParams) -> (r: Result<Claims, AppError>)
    ensures
        match credentials_refusal(params.client_id@, params.client_secret@) {
            Some(e) => r == Err::<Claims, AppError>(e),
            None => r matches Ok(claims) && claims.sub@ == params.client_id@ && claims.exp
                == TOKEN_EXPIRY,
        },
{
    if params.client_id.as_str().is_empty() || params.client_secret.as_str().is_empty() {
        return Err(AppError::MissingCredentials);
    }
    if params.client_id != CLIENT_ID.to_string() || params.client_secret
        != CLIENT_SECRET.to_string() {
        return Err(AppError::WrongCredentials);
    }
    Ok(Claims { sub: params.client_id, exp: TOKEN_EXPIRY })
}

/// The greeting for the holder of a valid token.
pub fn protected(claims: Claims) -> (r: String)
    ensures
        r@ == "Hello, "@ + claims.sub@ + "!"@,
{
    let mut message = "Hello, ".to_string();
    message.append(claims.sub.as_str());
    message.append("!");
    message
}

} // verus!
