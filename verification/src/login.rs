//! Login outcome classification.
//!
//! The login route validates credentials through the authentication
//! collaborator; this module holds its error type and the exact mapping
//! from an authentication failure to a login failure.

use vstd::prelude::*;

use crate::authentication::AuthError;
use crate::authentication::AuthErrorModel;

verus! {

/// A login failure: bad credentials, or an internal fault.
#[derive(Debug)]
pub enum LoginError {
    AuthError(String),
    UnexpectedError(String),
}

/// Mathematical form of a login failure.
#[verifier::ext_equal]
pub enum LoginErrorModel {
    AuthError(Seq<char>),
    UnexpectedError(Seq<char>),
}

impl View for LoginError {
    type V = LoginErrorModel;

    open spec fn view(&self) -> LoginErrorModel {
        match self {
            LoginError::AuthError(m) => LoginErrorModel::AuthError(m@),
            LoginError::UnexpectedError(m) => LoginErrorModel::UnexpectedError(m@),
        }
    }
}

impl LoginError {
    /// The message shown to the user: never the underlying cause.
    pub fn message(&self) -> (r: &'static str)
        ensures
            self@ is AuthError ==> r@ == "Authentication failed"@,
            self@ is UnexpectedError ==> r@ == "Something went wrong"@,
    {
        match self {
            LoginError::AuthError(_) => "Authentication failed",
            LoginError::UnexpectedError(_) => "Something went wrong",
        }
    }
}

/// Classify an authentication failure for the login route: wrong
/// credentials redirect back with "Authentication failed"; anything else
/// is an internal fault.
pub fn login_error_from_auth(e: AuthError) -> (r: LoginError)
    ensures
        (e@ matches AuthErrorModel::InvalidCredentials(m) ==> r@ == LoginErrorModel::AuthError(m)),
        (e@ matches AuthErrorModel::UnexpectedError(m) ==> r@ == (LoginErrorModel::UnexpectedError(
            m,
        ))),
{
    match e {
        AuthError::InvalidCredentials(m) => LoginError::AuthError(m),
        AuthError::UnexpectedError(m) => LoginError::UnexpectedError(m),
    }
}

} // verus!
