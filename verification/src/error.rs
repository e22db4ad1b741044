//! The failures that the catalog and its collaborators report.

use vstd::prelude::*;

verus! {

broadcast use vstd::string::group_string_axioms;

/// A failure, as it is handed to the caller.
#[derive(Debug, PartialEq, Eq)]
pub enum AppError {
    /// The caller's request was refused, with the HTTP status and the
    /// message to report.
    ClientFail(u16, String),
    /// The storage engine failed or held a malformed row.
    DatabaseError,
    /// The credentials are not those of a known client.
    WrongCredentials,
    /// A credential is empty.
    MissingCredentials,
    /// No token could be made.
    TokenCreation,
    /// The request carries no token, or one that does not hold.
    InvalidToken,
}

/// `e` is a refusal of the caller's request with this status and message.
pub open spec fn is_client_fail(e: AppError, code: u16, message: Seq<char>) -> bool {
    e matches AppError::ClientFail(c, m) && c == code && m@ == message
}

impl AppError {
    /// The text that describes the failure.
    pub open spec fn text(self) -> Seq<char> {
        match self {
            AppError::ClientFail(_, message) => "Client error: "@ + message@,
            AppError::DatabaseError => "Database error"@,
            AppError::WrongCredentials => "Wrong credentials"@,
            AppError::MissingCredentials => "Missing credentials"@,
            AppError::TokenCreation => "Token creation error"@,
            AppError::InvalidToken => "Invalid token"@,
        }
    }

    /// Renders the failure as text.
    pub fn to_string(&self) -> (r: String)
        ensures
            r@ == self.text(),
    {
        match self {
            AppError::ClientFail(_, message) => {
                let mut out = "Client error: ".to_string();
                out.append(message.as_str());
                out
            },
            AppError::DatabaseError => "Database error".to_string(),
            AppError::WrongCredentials => "Wrong credentials".to_string(),
            AppError::MissingCredentials => "Missing credentials".to_string(),
            AppError::TokenCreation => "Token creation error".to_string(),
            AppError::InvalidToken => "Invalid token".to_string(),
        }
    }
}

} // verus!
