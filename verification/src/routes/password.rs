//! The older password-change endpoint: the two new passwords must match and
//! the new one must be 12 to 128 characters long; a refusal is a plain 400.

use vstd::prelude::*;
use crate::authentication::{MAX_PASSWORD_LEN, MIN_PASSWORD_LEN, password_length_ok};
use crate::domain::PasswordChangeData;
use crate::handlers::change_password::{Answer, ChangePasswordRules, UsernameLookup};
use crate::responses::{Status, empty_response, is_empty_response};

verus! {

/// Starts a password change through the older endpoint for the logged-in
/// user `user_id`. The confirmation is compared first, then the length.
pub fn change_password(data: PasswordChangeData, user_id: u128) -> (res: Result<
    UsernameLookup,
    Answer,
>)
    ensures
        res is Ok <==> data.new_password@ == data.new_password_check@ && password_length_ok(
            data.new_password@,
        ),
        res matches Ok(l) ==> l.rules_spec() == ChangePasswordRules::Routes && l.user_id_spec()
            == user_id && l.current_password_spec() == data.current_password@
            && l.new_password_spec() == data.new_password@,
        res matches Err(a) ==> (a matches Ok(r) && is_empty_response(r, Status::BadRequest)),
{
    if data.new_password != data.new_password_check {
        return Err(Ok(empty_response(Status::BadRequest)));
    }
    let len = data.new_password.as_str().unicode_len();
    if len < MIN_PASSWORD_LEN || len > MAX_PASSWORD_LEN {
        return Err(Ok(empty_response(Status::BadRequest)));
    }
    Ok(
        UsernameLookup::new(
            ChangePasswordRules::Routes,
            user_id,
            data.current_password,
            data.new_password,
        ),
    )
}

} // verus!
