//! The HTTP answers the handlers give, as plain values.

use vstd::prelude::*;
use crate::domain::{List, UserResponse};

verus! {

/// The status codes the service answers with.
#[derive(Clone, Copy, Debug, PartialEq, Eq, Structural)]
pub enum Status {
    /// 200 OK.
    Success,
    BadRequest,
    Unauthorized,
    InternalServerError,
}

/// The numeric code of a status.
pub open spec fn spec_status_code(s: Status) -> u16 {
    match s {
        Status::Success => 200,
        Status::BadRequest => 400,
        Status::Unauthorized => 401,
        Status::InternalServerError => 500,
    }
}

impl Status {
    /// The numeric HTTP code of the status.
    pub fn code(&self) -> (c: u16)
        ensures
            c == spec_status_code(*self),
    {
        match self {
            Status::Success => 200,
            Status::BadRequest => 400,
            Status::Unauthorized => 401,
            Status::InternalServerError => 500,
        }
    }
}

/// A response body.
pub enum Body {
    /// No body.
    Empty,
    /// A plain-text body.
    Text(String),
    /// A JSON object whose one field `error_message` holds the text.
    ErrorMessage(String),
    /// A JSON user record.
    User(UserResponse),
    /// A JSON task list.
    List(List),
}

/// An HTTP response: its status, an optional custom reason phrase, and its
/// body.
pub struct Response {
    pub status: Status,
    pub reason: Option<String>,
    pub body: Body,
}

/// A failure that is answered with a prepared response; `cause` is what the
/// failure is logged as.
pub struct InternalError<E> {
    pub cause: E,
    pub response: Response,
}

/// `r` has status `s`, no custom reason phrase and no body.
pub open spec fn is_empty_response(r: Response, s: Status) -> bool {
    &&& r.status == s
    &&& r.reason is None
    &&& r.body is Empty
}

/// `r` is a 400 answer whose JSON body carries `message` as `error_message`.
pub open spec fn is_bad_request_json(r: Response, message: Seq<char>) -> bool {
    &&& r.status == Status::BadRequest
    &&& r.reason is None
    &&& r.body matches Body::ErrorMessage(m) && m@ == message
}

/// `r` is a 400 answer with `reason` as its reason phrase and no body.
pub open spec fn is_bad_request_with_reason(r: Response, reason: Seq<char>) -> bool {
    &&& r.status == Status::BadRequest
    &&& r.reason matches Some(p) && p@ == reason
    &&& r.body is Empty
}

/// `r` is a 200 answer whose JSON body is the user `user_id` named
/// `user_name`.
pub open spec fn is_user_response(r: Response, user_id: u128, user_name: Seq<char>) -> bool {
    &&& r.status == Status::Success
    &&& r.reason is None
    &&& r.body matches Body::User(u) && u.user_id == user_id && u.user_name@ == user_name
}

/// `e` is the error of `e500(cause)`: a 500 answer whose plain-text body is
/// the cause's text.
pub open spec fn is_e500(e: InternalError<String>, cause: Seq<char>) -> bool {
    &&& e.cause@ == cause
    &&& e.response.status == Status::InternalServerError
    &&& e.response.reason is None
    &&& e.response.body matches Body::Text(t) && t@ == cause
}

/// What the answer shapes mean, field by field: a 500 from `e500` shows
/// its cause as plain text, a JSON refusal is a 400 carrying its message,
/// and a user answer is a 200 carrying the user.
pub proof fn answer_shapes(e: InternalError<String>, r: Response, text: Seq<char>, user_id: u128)
    ensures
        is_e500(e, text) ==> e.response.status == Status::InternalServerError && e.cause@ == text
            && (e.response.body matches Body::Text(t) && t@ == text),
        is_bad_request_json(r, text) ==> r.status == Status::BadRequest && (r.body matches Body::ErrorMessage(m)
            && m@ == text),
        is_user_response(r, user_id, text) ==> r.status == Status::Success && (r.body matches Body::User(u)
            && u.user_id == user_id && u.user_name@ == text),
        is_empty_response(r, Status::InternalServerError) ==> r.status == Status::InternalServerError
            && r.body is Empty,
{
}

/// An answer with status `s` and nothing else.
pub fn empty_response(s: Status) -> (r: Response)
    ensures
        is_empty_response(r, s),
{
    Response { status: s, reason: None, body: Body::Empty }
}

/// A 400 answer whose JSON body carries `reason` as `error_message`.
pub fn to_bad_request_response(reason: &str) -> (r: Response)
    ensures
        is_bad_request_json(r, reason@),
{
    Response {
        status: Status::BadRequest,
        reason: None,
        body: Body::ErrorMessage(String::from_str(reason)),
    }
}

/// Turns a failure into a 500 answer that shows the failure's text.
pub fn e500(cause: String) -> (e: InternalError<String>)
    ensures
        is_e500(e, cause@),
{
    let text = cause.clone();
    InternalError {
        cause,
        response: Response { status: Status::InternalServerError, reason: None, body: Body::Text(text) },
    }
}

} // verus!
