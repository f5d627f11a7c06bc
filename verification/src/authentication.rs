//! Authentication data types.
//!
//! Credential checking itself (password hashing, the user table) is an
//! external collaborator; this module holds the data types its interface
//! speaks of.

use vstd::prelude::*;

verus! {

/// A username with the password presented for it.
#[derive(Debug)]
pub struct Credentials {
    pub username: String,
    pub password: String,
}

/// An authentication failure: the credentials were wrong, or checking
/// them failed.
#[derive(Debug)]
pub enum AuthError {
    InvalidCredentials(String),
    UnexpectedError(String),
}

/// Mathematical form of an authentication failure.
#[verifier::ext_equal]
pub enum AuthErrorModel {
    InvalidCredentials(Seq<char>),
    UnexpectedError(Seq<char>),
}

impl View for AuthError {
    type V = AuthErrorModel;

    open spec fn view(&self) -> AuthErrorModel {
        match self {
            AuthError::InvalidCredentials(m) => AuthErrorModel::InvalidCredentials(m@),
            AuthError::UnexpectedError(m) => AuthErrorModel::UnexpectedError(m@),
        }
    }
}

impl AuthError {
    /// A human-readable description.
    pub fn message(&self) -> (r: &str)
        ensures
            self@ is InvalidCredentials ==> r@ == "Invalid credentials"@,
            self@ matches AuthErrorModel::UnexpectedError(m) ==> r@ == m,
    {
        match self {
            AuthError::InvalidCredentials(_) => "Invalid credentials",
            AuthError::UnexpectedError(m) => m.as_str(),
        }
    }
}

} // verus!
