//! Domain errors.
//!
//! `AppError` is the outward taxonomy: a validation failure caught
//! before storage, a missing (or not owned) row, a uniqueness conflict,
//! or an internal failure with no detail exposed. `AuthenticationError`
//! deliberately does not distinguish an unknown username from a wrong
//! password.

use vstd::prelude::*;

verus! {

/// The outward error taxonomy of the domain operations.
#[derive(Clone, Copy, Debug, PartialEq, Eq, Structural)]
pub enum AppError {
    /// The input was rejected before any storage access.
    ValidationFailed,
    /// The row does not exist, or belongs to another user; the two are
    /// indistinguishable from outside.
    NotFound,
    /// A uniqueness constraint was violated: the invoice number already
    /// exists for this user, client and year.
    DuplicateInvoiceNumber,
    /// A storage or transport failure; no internal detail is exposed.
    Internal,
}

/// Errors of registration, login and token handling.
#[derive(Clone, Copy, Debug, PartialEq, Eq, Structural)]
pub enum AuthenticationError {
    /// Bad credentials: the username is unknown or the password wrong;
    /// callers cannot tell which.
    IncorrectPassword,
    /// No username was supplied.
    NoUsernameSet,
    /// No password was supplied.
    NoPasswordSet,
    /// The bearer token is missing, malformed or expired.
    InvalidToken,
    /// The username is already taken.
    UsernameTaken,
    /// A failure of the credential machinery itself.
    Internal,
}

impl AppError {
    /// A short outward message.
    pub fn message(&self) -> String {
        match self {
            AppError::ValidationFailed => "validation failed".to_owned(),
            AppError::NotFound => "that resource is not found".to_owned(),
            AppError::DuplicateInvoiceNumber => "duplicate invoice number".to_owned(),
            AppError::Internal => "internal error".to_owned(),
        }
    }
}

impl AuthenticationError {
    /// A short outward message; deliberately identical for an unknown
    /// username and a wrong password.
    pub fn message(&self) -> String {
        match self {
            AuthenticationError::IncorrectPassword => "incorrect password".to_owned(),
            AuthenticationError::NoUsernameSet => "no username set".to_owned(),
            AuthenticationError::NoPasswordSet => "no password set".to_owned(),
            AuthenticationError::InvalidToken => "invalid token".to_owned(),
            AuthenticationError::UsernameTaken => "username already taken".to_owned(),
            AuthenticationError::Internal => "internal error".to_owned(),
        }
    }
}

} // verus!
