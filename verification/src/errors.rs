//! The closed error taxonomy of the identity core.
//!
//! Every failure a caller can observe is one of these kinds, so callers can
//! match exhaustively and map each kind to a transport status
//! deterministically. `CryptoFailure`, `RepositoryFailure` and `CacheFailure`
//! classify as server faults; the rest are client faults.

use vstd::prelude::*;

verus! {

/// One kind per observable failure of the identity core.
#[derive(Clone, Copy, Debug, PartialEq, Eq, Structural)]
pub enum AuthError {
    /// Registration found an account with the same email.
    UserAlreadyExists,
    /// No account matched the identifier, or no candidate's password matched.
    WrongCredentials,
    /// The token is malformed, unsigned, or its signature does not match.
    InvalidToken,
    /// The token's expiry lies in the past and expired tokens were not allowed.
    TokenExpired,
    /// An access token stood where a refresh token was required, or vice versa.
    WrongTokenType,
    /// An activation code was requested for an account that is not inactive.
    AlreadyActivated,
    /// A one-time code was presented that does not match the stored one.
    WrongCode,
    /// A hashing or random-source fault inside the credential verifier.
    CryptoFailure,
    /// The notification publish failed after the primary mutation committed.
    NotificationFailed,
    /// The account repository failed.
    RepositoryFailure,
    /// The ephemeral code store failed.
    CacheFailure,
}

impl AuthError {
    /// True exactly for the kinds treated as server faults (5xx-equivalent);
    /// the remaining kinds are client faults (4xx-equivalent).
    pub open spec fn spec_is_server_fault(self) -> bool {
        self == AuthError::CryptoFailure || self == AuthError::RepositoryFailure || self
            == AuthError::CacheFailure
    }

    /// Classifies this kind as a server fault or a client fault.
    pub fn is_server_fault(&self) -> (r: bool)
        ensures
            r == self.spec_is_server_fault(),
    {
        match self {
            AuthError::CryptoFailure => true,
            AuthError::RepositoryFailure => true,
            AuthError::CacheFailure => true,
            _ => false,
        }
    }

    /// A safe, fixed message per kind: no internal detail is carried along.
    pub fn message(&self) -> String {
        match self {
            AuthError::UserAlreadyExists => String::from_str("user already exists"),
            AuthError::WrongCredentials => String::from_str("wrong credentials"),
            AuthError::InvalidToken => String::from_str("invalid token"),
            AuthError::TokenExpired => String::from_str("token expired"),
            AuthError::WrongTokenType => String::from_str("wrong token type"),
            AuthError::AlreadyActivated => String::from_str("user already activated"),
            AuthError::WrongCode => String::from_str("wrong verification code"),
            AuthError::CryptoFailure => String::from_str("crypto failure"),
            AuthError::NotificationFailed => String::from_str("notification failed"),
            AuthError::RepositoryFailure => String::from_str("repository failure"),
            AuthError::CacheFailure => String::from_str("cache failure"),
        }
    }
}

} // verus!
