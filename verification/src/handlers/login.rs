//! Login. The credentials are checked against the stored hash; on success
//! the session is renewed and given the user's id. Whether the session took
//! the id does not change the answer: the answer is decided before the
//! session is written.

use vstd::prelude::*;
use crate::errors::{AuthError, LoginError};
use crate::responses::{
    Body, InternalError, Response, Status, empty_response, is_empty_response, is_user_response,
};

verus! {

/// What a login decides: the user to start a session for, if any, and the
/// answer.
pub struct LoginOutcome {
    pub session_user: Option<u128>,
    pub answer: Result<Response, InternalError<LoginError>>,
}

/// `o` is the failed login for the refusal `e` of the credential check:
/// no session, 400 for wrong credentials and 500 when the check failed.
pub open spec fn is_refused_login(e: AuthError, o: LoginOutcome) -> bool {
    &&& o.session_user is None
    &&& match e {
        AuthError::InvalidCredentials(m) => o.answer matches Err(err) && err.cause
            == LoginError::AuthError(m) && is_empty_response(err.response, Status::BadRequest),
        AuthError::UnexpectedError(m) => o.answer matches Err(err) && err.cause
            == LoginError::UnexpectedError(m) && is_empty_response(
            err.response,
            Status::InternalServerError,
        ),
    }
}

/// A refused login starts no session; wrong credentials are a 400 and a
/// failed check is a 500, each logged with the check's text.
pub proof fn refused_login_answers(e: AuthError, o: LoginOutcome)
    requires
        is_refused_login(e, o),
    ensures
        o.session_user is None,
        e matches AuthError::InvalidCredentials(m) ==> (o.answer matches Err(err)
            && err.response.status == Status::BadRequest && err.cause == LoginError::AuthError(m)),
        e matches AuthError::UnexpectedError(m) ==> (o.answer matches Err(err)
            && err.response.status == Status::InternalServerError && err.cause
            == LoginError::UnexpectedError(m)),
{
}

/// The failed login for a refused credential check.
pub(crate) fn refused_login(e: AuthError) -> (o: LoginOutcome)
    ensures
        is_refused_login(e, o),
{
    match e {
        AuthError::InvalidCredentials(m) => LoginOutcome {
            session_user: None,
            answer: Err(
                InternalError {
                    cause: LoginError::AuthError(m),
                    response: empty_response(Status::BadRequest),
                },
            ),
        },
        AuthError::UnexpectedError(m) => LoginOutcome {
            session_user: None,
            answer: Err(
                InternalError {
                    cause: LoginError::UnexpectedError(m),
                    response: empty_response(Status::InternalServerError),
                },
            ),
        },
    }
}

/// Decides a login for `username` from the outcome of the credential check:
/// on success a session for the user and 200 with the user's id and name.
pub fn login(username: String, checked: Result<u128, AuthError>) -> (o: LoginOutcome)
    ensures
        checked matches Ok(id) ==> o.session_user == Some(id) && (o.answer matches Ok(r)
            && is_user_response(r, id, username@)),
        checked matches Err(e) ==> is_refused_login(e, o),
{
    match checked {
        Ok(id) => LoginOutcome {
            session_user: Some(id),
            answer: Ok(
                Response {
                    status: Status::Success,
                    reason: None,
                    body: Body::User(crate::domain::UserResponse { user_id: id, user_name: username }),
                },
            ),
        },
        Err(e) => refused_login(e),
    }
}

} // verus!
