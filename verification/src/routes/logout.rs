//! The older logout endpoint.

use vstd::prelude::*;
use crate::responses::{Response, Status, empty_response, is_empty_response};

verus! {

/// The answer to a logout, given once the session has been purged: an
/// empty 200.
pub fn log_out() -> (r: Response)
    ensures
        is_empty_response(r, Status::Success),
{
    empty_response(Status::Success)
}

} // verus!
