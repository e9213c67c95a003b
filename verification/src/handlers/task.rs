//! Creating and updating tasks.

use vstd::prelude::*;
use crate::responses::{InternalError, Response, Status, empty_response, is_empty_response};

verus! {

/// `a` answers the outcome of writing a task: an empty 200, or an empty 500
/// logged as the failure.
pub open spec fn is_task_write_answer(
    written: Result<(), String>,
    a: Result<Response, InternalError<String>>,
) -> bool {
    match written {
        Ok(()) => a matches Ok(r) && is_empty_response(r, Status::Success),
        Err(m) => a matches Err(e) && e.cause == m && is_empty_response(
            e.response,
            Status::InternalServerError,
        ),
    }
}

/// A task write that succeeded is answered with an empty 200; one that
/// failed is answered with an empty 500, no reason phrase, logged as the
/// failure's text.
pub proof fn task_write_answer_status(written: Result<(), String>, a: Result<Response, InternalError<String>>)
    requires
        is_task_write_answer(written, a),
    ensures
        written is Ok ==> (a matches Ok(r) && r.status == Status::Success && r.reason is None
            && r.body is Empty),
        written matches Err(m) ==> (a matches Err(e) && e.cause == m && e.response.status
            == Status::InternalServerError && e.response.reason is None
            && e.response.body is Empty),
{
}

/// The answer to a task-creation request, from the outcome of inserting the
/// task.
pub fn create_task(inserted: Result<(), String>) -> (a: Result<Response, InternalError<String>>)
    ensures
        is_task_write_answer(inserted, a),
{
    match inserted {
        Ok(()) => Ok(empty_response(Status::Success)),
        Err(m) => Err(InternalError { cause: m, response: empty_response(Status::InternalServerError) }),
    }
}

/// The answer to a task-update request, from the outcome of updating the
/// task.
pub fn update_task(updated: Result<(), String>) -> (a: Result<Response, InternalError<String>>)
    ensures
        is_task_write_answer(updated, a),
{
    match updated {
        Ok(()) => Ok(empty_response(Status::Success)),
        Err(m) => Err(InternalError { cause: m, response: empty_response(Status::InternalServerError) }),
    }
}

} // verus!
