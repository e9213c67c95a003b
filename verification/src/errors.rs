//! The error types that the handlers report, and the messages they display.
//! A variant that wraps a lower-level failure carries that failure's text.

use vstd::prelude::*;

verus! {

/// Why a sign-up request failed.
pub enum CreateUserError {
    InvalidPassword(String),
    UserInsertError(String),
    StartSessionError(String),
    UserAlreadyExists,
    InvalidUsername,
    InvalidEmail,
    UnexpectedError(String),
}

impl CreateUserError {
    /// The message the error displays.
    pub open spec fn spec_message(&self) -> Seq<char> {
        match self {
            CreateUserError::InvalidPassword(_) => "Password is invalid"@,
            CreateUserError::UserInsertError(_) => "Failed to insert new user"@,
            CreateUserError::StartSessionError(_) => "Failed to start session for new user"@,
            CreateUserError::UserAlreadyExists => "User already exists"@,
            CreateUserError::InvalidUsername => "Username must have a value"@,
            CreateUserError::InvalidEmail => "User email is invalid"@,
            CreateUserError::UnexpectedError(_) => "Something went wrong"@,
        }
    }

    /// The message the error displays.
    pub fn message(&self) -> (m: String)
        ensures
            m@ == self.spec_message(),
    {
        match self {
            CreateUserError::InvalidPassword(_) => String::from_str("Password is invalid"),
            CreateUserError::UserInsertError(_) => String::from_str("Failed to insert new user"),
            CreateUserError::StartSessionError(_) => String::from_str(
                "Failed to start session for new user",
            ),
            CreateUserError::UserAlreadyExists => String::from_str("User already exists"),
            CreateUserError::InvalidUsername => String::from_str("Username must have a value"),
            CreateUserError::InvalidEmail => String::from_str("User email is invalid"),
            CreateUserError::UnexpectedError(_) => String::from_str("Something went wrong"),
        }
    }
}

/// Why a login failed.
pub enum LoginError {
    AuthError(String),
    UnexpectedError(String),
}

impl LoginError {
    /// The message the error displays.
    pub open spec fn spec_message(&self) -> Seq<char> {
        match self {
            LoginError::AuthError(_) => "Authentication failed"@,
            LoginError::UnexpectedError(_) => "Something went wrong"@,
        }
    }

    /// The message the error displays.
    pub fn message(&self) -> (m: String)
        ensures
            m@ == self.spec_message(),
    {
        match self {
            LoginError::AuthError(_) => String::from_str("Authentication failed"),
            LoginError::UnexpectedError(_) => String::from_str("Something went wrong"),
        }
    }
}

/// How checking a user name and password against the stored hash failed:
/// the pair does not match a user, or the check itself could not be done.
pub enum AuthError {
    InvalidCredentials(String),
    UnexpectedError(String),
}

} // verus!
