//! The older login endpoint: like the JSON API's, but a successful login is
//! answered with an empty 200.

use vstd::prelude::*;
use crate::errors::AuthError;
use crate::handlers::login::{LoginOutcome, is_refused_login, refused_login};
use crate::responses::{Status, empty_response, is_empty_response};

verus! {

/// Decides a login from the outcome of the credential check: on success a
/// session for the user and an empty 200.
pub fn login(checked: Result<u128, AuthError>) -> (o: LoginOutcome)
    ensures
        checked matches Ok(id) ==> o.session_user == Some(id) && (o.answer matches Ok(r)
            && is_empty_response(r, Status::Success)),
        checked matches Err(e) ==> is_refused_login(e, o),
{
    match checked {
        Ok(id) => LoginOutcome { session_user: Some(id), answer: Ok(empty_response(Status::Success)) },
        Err(e) => refused_login(e),
    }
}

} // verus!
