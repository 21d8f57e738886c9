//! Identity and session core: credential hashing and verification, issuing,
//! parsing and refreshing of signed session tokens, and the one-time-code
//! workflows for account activation and password reset.

pub mod account;
pub mod crypto;
pub mod errors;
pub mod flows;
pub mod notify;
pub mod repo;
pub mod store;
pub mod token;
