//! Checks shared by the handlers that deal with passwords and sessions.

use vstd::prelude::*;
use crate::responses::{
    InternalError, Response, Status, empty_response, is_bad_request_json, is_empty_response,
    to_bad_request_response,
};

verus! {

/// The shortest password accepted, in characters.
pub const MIN_PASSWORD_LEN: usize = 12;

/// The longest password accepted, in characters.
pub const MAX_PASSWORD_LEN: usize = 128;

/// A password whose length, in characters, is in the accepted range.
pub open spec fn password_length_ok(password: Seq<char>) -> bool {
    MIN_PASSWORD_LEN <= password.len() <= MAX_PASSWORD_LEN
}

/// The reason a password of the wrong length is refused with.
pub open spec fn password_length_reason(password: Seq<char>) -> Seq<char> {
    if password.len() < MIN_PASSWORD_LEN {
        password_too_short_reason()
    } else {
        password_too_long_reason()
    }
}

/// The reason given for a password below the accepted length.
pub open spec fn password_too_short_reason() -> Seq<char> {
    "The new password is too short - it must be between 12 and 128 characters long."@
}

/// The reason given for a password above the accepted length.
pub open spec fn password_too_long_reason() -> Seq<char> {
    "The new password is too long - it must be between 12 and 128 characters long."@
}

/// A password is accepted exactly when it has 12 to 128 characters, and a
/// refused one is called too short below 12 and too long above 128.
pub proof fn password_length_rule(password: Seq<char>)
    ensures
        password_length_ok(password) <==> 12 <= password.len() <= 128,
        password.len() < 12 ==> password_length_reason(password) == password_too_short_reason(),
        password.len() > 128 ==> password_length_reason(password) == password_too_long_reason(),
{
}

/// Checks that a new password is between 12 and 128 characters long. A refusal
/// carries the reason and the 400 answer that shows it.
pub fn validate_password_length(password: &str) -> (res: Result<(), (String, Response)>)
    ensures
        res is Ok <==> password_length_ok(password@),
        res matches Err((e, r)) ==> e@ == password_length_reason(password@) && is_bad_request_json(
            r,
            password_length_reason(password@),
        ),
{
    let len = password.unicode_len();
    if len < MIN_PASSWORD_LEN {
        let reason = "The new password is too short - it must be between 12 and 128 characters long.";
        return Err((String::from_str(reason), to_bad_request_response(reason)));
    }
    if len > MAX_PASSWORD_LEN {
        let reason = "The new password is too long - it must be between 12 and 128 characters long.";
        return Err((String::from_str(reason), to_bad_request_response(reason)));
    }
    Ok(())
}

/// The guard in front of the endpoints that need a logged-in user: it lets
/// the request through with the session's user id, answers 401 when the
/// session holds no user, and 500 when the session could not be read.
pub fn reject_anonymous_users(session_user: Result<Option<u128>, String>) -> (res: Result<
    u128,
    InternalError<String>,
>)
    ensures
        session_user matches Ok(Some(id)) ==> res == Ok::<u128, InternalError<String>>(id),
        session_user is Ok && session_user->Ok_0 is None ==> (res matches Err(e) && e.cause@
            == "The user has not logged in"@ && is_empty_response(e.response, Status::Unauthorized)),
        session_user matches Err(m) ==> (res matches Err(e) && crate::responses::is_e500(e, m@)),
{
    match session_user {
        Ok(Some(id)) => Ok(id),
        Ok(None) => Err(
            InternalError {
                cause: String::from_str("The user has not logged in"),
                response: empty_response(Status::Unauthorized),
            },
        ),
        Err(m) => Err(crate::responses::e500(m)),
    }
}

} // verus!
