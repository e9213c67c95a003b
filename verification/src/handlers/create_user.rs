//! Sign-up. A request is checked (password length, user name, e-mail
//! address), then the name is looked up, then the user is stored, then a
//! session is started for the new user. Each stage is a type of its own:
//! a value of the next stage exists only when the previous step succeeded,
//! and the request it carries is one that passed every check.

use vstd::prelude::*;
use crate::authentication::{password_length_ok, password_length_reason, validate_password_length};
use crate::domain::{CreateUserData, UserResponse};
use crate::errors::CreateUserError;
use crate::ids::is_random_uuid;
use crate::queries::{NewUserRow, insert_user_data, new_user_row};
use crate::responses::{
    Body, InternalError, Response, Status, empty_response, is_bad_request_json, is_empty_response, is_user_response,
    to_bad_request_response,
};

verus! {

/// What `validator::validate_email` answers for an address.
pub uninterp spec fn email_validity(email: Seq<char>) -> bool;

/// Calls `validator::validate_email`, which checks an address against the
/// HTML5 form of an e-mail address (a regular expression for the local part,
/// the domain part as a host name, an IP literal or an internationalized
/// name). The verdict is named, not restated; the one fact claimed beside
/// the name is the function's first branch: an address without `@` is
/// refused at once.
#[verifier::external_body]
fn validate_email(email: &str) -> (valid: bool)
    ensures
        valid == email_validity(email@),
        valid ==> email@.contains('@'),
{
    validator::validate_email(email)
}

/// A sign-up request that passes every check, given the verdict on its
/// e-mail address.
pub open spec fn new_user_accepted(data: CreateUserData, email_valid: bool) -> bool {
    &&& password_length_ok(data.password@)
    &&& data.user_name@.len() > 0
    &&& email_valid
}

/// `e` is the answer to a sign-up request that fails a check: the first
/// failing check, in the order password length, user name, e-mail address,
/// gives the error and its 400 answer.
pub open spec fn rejects_new_user(
    data: CreateUserData,
    email_valid: bool,
    e: InternalError<CreateUserError>,
) -> bool {
    if !password_length_ok(data.password@) {
        &&& e.cause matches CreateUserError::InvalidPassword(m) && m@ == password_length_reason(
            data.password@,
        )
        &&& is_bad_request_json(e.response, password_length_reason(data.password@))
    } else if data.user_name@.len() == 0 {
        &&& e.cause == CreateUserError::InvalidUsername
        &&& is_bad_request_json(e.response, "Username must have a value"@)
    } else {
        &&& e.cause == CreateUserError::InvalidEmail
        &&& is_bad_request_json(e.response, "Email is invalid"@)
    }
}

/// A sign-up request is accepted only when the e-mail check accepts its
/// address, and, once the password length and the address pass, exactly
/// when the user name is not empty: no other condition falls on the name.
pub proof fn sign_up_acceptance(data: CreateUserData, email_valid: bool)
    ensures
        new_user_accepted(data, email_valid) ==> email_valid,
        new_user_accepted(data, email_valid) ==> password_length_ok(data.password@),
        password_length_ok(data.password@) && email_valid ==> (new_user_accepted(data, email_valid)
            <==> data.user_name@.len() > 0),
{
}

/// How a sign-up request that fails a check is refused: a password of the
/// wrong length first, then an empty name, and a request with a good
/// password and a non-empty name is refused only for its address.
pub proof fn sign_up_refusal_causes(
    data: CreateUserData,
    email_valid: bool,
    e: InternalError<CreateUserError>,
)
    requires
        rejects_new_user(data, email_valid, e),
    ensures
        !password_length_ok(data.password@) ==> e.cause is InvalidPassword,
        password_length_ok(data.password@) && data.user_name@.len() == 0 ==> e.cause
            == CreateUserError::InvalidUsername,
        password_length_ok(data.password@) && data.user_name@.len() > 0 ==> e.cause
            == CreateUserError::InvalidEmail,
        e.response.status == Status::BadRequest,
{
}

/// Refuses an empty user name.
pub fn validate_username_has_value(user_name: &str) -> (res: Result<(), InternalError<CreateUserError>>)
    ensures
        res is Ok <==> user_name@.len() > 0,
        res matches Err(e) ==> e.cause == CreateUserError::InvalidUsername && is_bad_request_json(
            e.response,
            "Username must have a value"@,
        ),
{
    if user_name.is_empty() {
        let reason = "Username must have a value";
        return Err(
            InternalError {
                cause: CreateUserError::InvalidUsername,
                response: to_bad_request_response(reason),
            },
        );
    }
    Ok(())
}

/// The checks on a sign-up request, in order, given the verdict on its
/// e-mail address.
pub fn validate_new_user(data: &CreateUserData, email_valid: bool) -> (res: Result<
    (),
    InternalError<CreateUserError>,
>)
    ensures
        res is Ok <==> new_user_accepted(*data, email_valid),
        res matches Err(e) ==> rejects_new_user(*data, email_valid, e),
{
    match validate_password_length(data.password.as_str()) {
        Ok(()) => {},
        Err((e, r)) => {
            return Err(InternalError { cause: CreateUserError::InvalidPassword(e), response: r });
        },
    }
    validate_username_has_value(data.user_name.as_str())?;
    if !email_valid {
        let reason = "Email is invalid";
        return Err(
            InternalError { cause: CreateUserError::InvalidEmail, response: to_bad_request_response(reason) },
        );
    }
    Ok(())
}

/// `e` is the answer to a lookup of the requested user name that does not
/// let the sign-up go on: 400 when the name is taken, 500 when the lookup
/// failed.
pub open spec fn rejects_user_lookup(
    user_exists: Result<bool, String>,
    e: InternalError<CreateUserError>,
) -> bool {
    match user_exists {
        Ok(true) => {
            &&& e.cause == CreateUserError::UserAlreadyExists
            &&& is_bad_request_json(e.response, "User already exists"@)
        },
        Ok(false) => false,
        Err(m) => {
            &&& e.cause == CreateUserError::UnexpectedError(m)
            &&& is_empty_response(e.response, Status::InternalServerError)
        },
    }
}

/// Only a free name lets a sign-up go on; a taken name is a 400 that says
/// so, and a failed lookup is a 500.
pub proof fn user_lookup_refusals(user_exists: Result<bool, String>, e: InternalError<CreateUserError>)
    requires
        rejects_user_lookup(user_exists, e),
    ensures
        user_exists != Ok::<bool, String>(false),
        user_exists == Ok::<bool, String>(true) ==> e.cause == CreateUserError::UserAlreadyExists
            && e.response.status == Status::BadRequest,
        user_exists matches Err(m) ==> e.cause == CreateUserError::UnexpectedError(m)
            && e.response.status == Status::InternalServerError,
{
}

/// Answers the lookup of the requested user name: a name that is taken is
/// refused with 400, a failed lookup is a 500.
pub fn validate_user_does_not_exist(user_exists: Result<bool, String>) -> (res: Result<
    (),
    InternalError<CreateUserError>,
>)
    ensures
        res is Ok <==> user_exists == Ok::<bool, String>(false),
        res matches Err(e) ==> rejects_user_lookup(user_exists, e),
{
    match user_exists {
        Err(m) => Err(
            InternalError {
                cause: CreateUserError::UnexpectedError(m),
                response: empty_response(Status::InternalServerError),
            },
        ),
        Ok(true) => {
            let reason = "User already exists";
            Err(
                InternalError {
                    cause: CreateUserError::UserAlreadyExists,
                    response: to_bad_request_response(reason),
                },
            )
        },
        Ok(false) => Ok(()),
    }
}

/// A sign-up request that passed every check and waits for its user name
/// to be looked up.
pub struct UserNameCheck {
    data: CreateUserData,
}

impl UserNameCheck {
    #[verifier::type_invariant]
    spec fn accepted(self) -> bool {
        &&& new_user_accepted(self.data, email_validity(self.data.email@))
        &&& self.data.email@.contains('@')
    }

    /// The request.
    pub closed spec fn request(self) -> CreateUserData {
        self.data
    }

    /// The user name to look up.
    pub fn user_name(&self) -> (n: &str)
        ensures
            n@ == self.request().user_name@,
    {
        self.data.user_name.as_str()
    }

    /// Continues with the answer of the lookup: a free name moves on to
    /// storing the user, under a fresh random id drawn here; anything else
    /// ends the request.
    pub fn user_checked(self, user_exists: Result<bool, String>) -> (res: Result<
        PendingInsert,
        InternalError<CreateUserError>,
    >)
        ensures
            res is Ok <==> user_exists == Ok::<bool, String>(false),
            res matches Ok(p) ==> p.request() == self.request() && is_random_uuid(p.user_id_spec()),
            res matches Err(e) ==> rejects_user_lookup(user_exists, e),
    {
        proof {
            use_type_invariant(&self);
        }
        match validate_user_does_not_exist(user_exists) {
            Ok(()) => {
                let row = insert_user_data(self.data.user_name.as_str(), self.data.email.as_str());
                Ok(PendingInsert { data: self.data, row })
            },
            Err(e) => Err(e),
        }
    }
}

/// A sign-up request that passed every check and whose user name is free,
/// with the `users` row to store for it; it waits for the row to be stored.
pub struct PendingInsert {
    data: CreateUserData,
    row: NewUserRow,
}

impl PendingInsert {
    #[verifier::type_invariant]
    spec fn accepted(self) -> bool {
        &&& new_user_accepted(self.data, email_validity(self.data.email@))
        &&& self.data.email@.contains('@')
        &&& is_random_uuid(self.row.user_id)
        &&& self.row.user_name@ == self.data.user_name@
        &&& self.row.email@ == self.data.email@
    }

    /// The request.
    pub closed spec fn request(self) -> CreateUserData {
        self.data
    }

    /// The id the new user is stored under.
    pub closed spec fn user_id_spec(self) -> u128 {
        self.row.user_id
    }

    /// The `users` row to store: the new user's id, name and e-mail
    /// address. Only a request that passed every check gets this far, so
    /// the row's e-mail address always holds an `@`.
    pub fn new_user_row(&self) -> (row: NewUserRow)
        ensures
            new_user_accepted(self.request(), email_validity(self.request().email@)),
            row.email@.contains('@'),
            is_random_uuid(row.user_id),
            row.user_id == self.user_id_spec(),
            row.user_name@ == self.request().user_name@,
            row.email@ == self.request().email@,
    {
        proof {
            use_type_invariant(self);
        }
        new_user_row(self.row.user_id, self.row.user_name.as_str(), self.row.email.as_str())
    }

    /// The password whose hash is stored with the row.
    pub fn password(&self) -> (p: &str)
        ensures
            p@ == self.request().password@,
    {
        self.data.password.as_str()
    }

    /// Continues with the outcome of storing the row: the stored user's id
    /// moves on to starting a session, a failure ends the request with 500.
    pub fn inserted(self, stored: Result<(), String>) -> (res: Result<
        PendingSession,
        InternalError<CreateUserError>,
    >)
        ensures
            stored is Ok ==> (res matches Ok(s) && s.user_id_spec() == self.user_id_spec()
                && s.user_name_spec() == self.request().user_name@),
            stored matches Err(m) ==> (res matches Err(e) && e.cause
                == CreateUserError::UserInsertError(m) && is_empty_response(
                e.response,
                Status::InternalServerError,
            )),
    {
        match stored {
            Ok(()) => Ok(PendingSession { user_id: self.row.user_id, user_name: self.data.user_name }),
            Err(m) => Err(
                InternalError {
                    cause: CreateUserError::UserInsertError(m),
                    response: empty_response(Status::InternalServerError),
                },
            ),
        }
    }
}

/// A stored new user, waiting for the session to be renewed and to be given
/// the user's id.
pub struct PendingSession {
    user_id: u128,
    user_name: String,
}

impl PendingSession {
    /// The new user's id.
    pub closed spec fn user_id_spec(self) -> u128 {
        self.user_id
    }

    /// The new user's name.
    pub closed spec fn user_name_spec(self) -> Seq<char> {
        self.user_name@
    }

    /// The id to store in the session.
    pub fn user_id(&self) -> (id: u128)
        ensures
            id == self.user_id_spec(),
    {
        self.user_id
    }

    /// Finishes the sign-up with the outcome of storing the id in the
    /// session: 200 with the new user's id and name, or 500 when the session
    /// could not take the id (the caller then logs the session out).
    pub fn session_started(self, started: Result<(), String>) -> (res: Result<
        Response,
        InternalError<CreateUserError>,
    >)
        ensures
            started is Ok ==> (res matches Ok(r) && is_user_response(
                r,
                self.user_id_spec(),
                self.user_name_spec(),
            )),
            started matches Err(m) ==> (res matches Err(e) && e.cause
                == CreateUserError::StartSessionError(m) && is_empty_response(
                e.response,
                Status::InternalServerError,
            )),
    {
        match started {
            Ok(()) => Ok(
                Response {
                    status: Status::Success,
                    reason: None,
                    body: Body::User(UserResponse { user_id: self.user_id, user_name: self.user_name }),
                },
            ),
            Err(m) => Err(
                InternalError {
                    cause: CreateUserError::StartSessionError(m),
                    response: empty_response(Status::InternalServerError),
                },
            ),
        }
    }
}

/// Starts a sign-up: checks the request and, when it passes, hands it on to
/// the lookup of its user name.
pub fn create_user(data: CreateUserData) -> (res: Result<UserNameCheck, InternalError<CreateUserError>>)
    ensures
        res is Ok <==> new_user_accepted(data, email_validity(data.email@)),
        res matches Ok(c) ==> c.request() == data,
        res matches Err(e) ==> rejects_new_user(data, email_validity(data.email@), e),
        !data.email@.contains('@') ==> res is Err,
{
    let email_valid = validate_email(data.email.as_str());
    match validate_new_user(&data, email_valid) {
        Ok(()) => Ok(UserNameCheck { data }),
        Err(e) => Err(e),
    }
}

} // verus!
