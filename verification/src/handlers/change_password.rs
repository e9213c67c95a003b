//! Password change for the logged-in user. The new password is checked,
//! then the user's name is looked up, then the current password is checked
//! against the stored hash, then the new password is stored. Each stage is
//! a type of its own, so the password is only written once every earlier
//! step has succeeded, and only with a new password that passed the checks.
//!
//! The service has two versions of this endpoint. Both accept a new password
//! of 12 to 128 characters that equals its confirmation; they differ in the
//! order of the checks and in how a refusal is answered.
//! `ChangePasswordRules` says which one a change follows.

use vstd::prelude::*;
use crate::authentication::{
    password_length_ok, password_length_reason, validate_password_length,
};
use crate::domain::{Credentials, PasswordChangeData};
use crate::errors::AuthError;
use crate::responses::{
    InternalError, Response, Status, e500, empty_response, is_bad_request_json, is_bad_request_with_reason, is_e500,
    is_empty_response, to_bad_request_response,
};

verus! {

/// What an endpoint answers: a response, or a failure with its response.
pub type Answer = Result<Response, InternalError<String>>;

/// Which version of the password-change endpoint a change follows.
#[derive(Clone, Copy, Debug, PartialEq, Eq, Structural)]
pub enum ChangePasswordRules {
    /// The JSON API: the length is checked before the confirmation, and
    /// each refusal is an error carrying its reason.
    Handlers,
    /// The older endpoint: the confirmation is checked before the length,
    /// and a refusal is a plain 400 answer.
    Routes,
}

/// The reason given when the two new passwords differ.
pub open spec fn passwords_differ_reason() -> Seq<char> {
    "Two different passwords were entered - the field values must match."@
}

/// The reason given when the current password is wrong.
pub open spec fn wrong_password_reason() -> Seq<char> {
    "The current password is incorrect."@
}

/// A password change whose new password passed the checks; it waits for the
/// user's name to be looked up.
pub struct UsernameLookup {
    rules: ChangePasswordRules,
    user_id: u128,
    current_password: String,
    new_password: String,
}

impl UsernameLookup {
    #[verifier::type_invariant]
    spec fn allowed(self) -> bool {
        password_length_ok(self.new_password@)
    }

    /// The rules the change follows.
    pub closed spec fn rules_spec(self) -> ChangePasswordRules {
        self.rules
    }

    /// The id of the user whose password changes.
    pub closed spec fn user_id_spec(self) -> u128 {
        self.user_id
    }

    /// The password the user gave as the current one.
    pub closed spec fn current_password_spec(self) -> Seq<char> {
        self.current_password@
    }

    /// The new password.
    pub closed spec fn new_password_spec(self) -> Seq<char> {
        self.new_password@
    }

    /// Starts the lookup stage of a change whose new password is allowed.
    pub(crate) fn new(
        rules: ChangePasswordRules,
        user_id: u128,
        current_password: String,
        new_password: String,
    ) -> (l: UsernameLookup)
        requires
            password_length_ok(new_password@),
        ensures
            l.rules_spec() == rules,
            l.user_id_spec() == user_id,
            l.current_password_spec() == current_password@,
            l.new_password_spec() == new_password@,
    {
        UsernameLookup { rules, user_id, current_password, new_password }
    }

    /// The id of the user whose name is looked up.
    pub fn user_id(&self) -> (id: u128)
        ensures
            id == self.user_id_spec(),
    {
        self.user_id
    }

    /// Continues with the looked-up name: the credentials are checked next;
    /// a failed lookup is a 500.
    pub fn username_found(self, username: Result<String, String>) -> (res: Result<
        CredentialCheck,
        Answer,
    >)
        ensures
            username matches Ok(n) ==> (res matches Ok(c) && c.rules_spec() == self.rules_spec()
                && c.user_id_spec() == self.user_id_spec() && c.username_spec() == n@
                && c.current_password_spec() == self.current_password_spec()
                && c.new_password_spec() == self.new_password_spec()),
            username matches Err(m) ==> (res matches Err(Err(e)) && is_e500(e, m@)),
    {
        proof {
            use_type_invariant(&self);
        }
        match username {
            Ok(n) => Ok(
                CredentialCheck {
                    rules: self.rules,
                    user_id: self.user_id,
                    username: n,
                    current_password: self.current_password,
                    new_password: self.new_password,
                },
            ),
            Err(m) => Err(Err(e500(m))),
        }
    }
}

/// A password change waiting for the user's current password to be checked.
pub struct CredentialCheck {
    rules: ChangePasswordRules,
    user_id: u128,
    username: String,
    current_password: String,
    new_password: String,
}

/// `a` is how a password change answers a refused credential check under
/// `rules`.
pub open spec fn is_refused_change(rules: ChangePasswordRules, e: AuthError, a: Answer) -> bool {
    match e {
        AuthError::InvalidCredentials(_) => match rules {
            ChangePasswordRules::Handlers => a matches Err(err) && err.cause@
                == wrong_password_reason() && is_bad_request_with_reason(
                err.response,
                wrong_password_reason(),
            ),
            ChangePasswordRules::Routes => a matches Ok(r) && is_empty_response(
                r,
                Status::BadRequest,
            ),
        },
        AuthError::UnexpectedError(m) => a matches Err(err) && is_e500(err, m@),
    }
}

/// Whatever rules a change follows, a credential check that failed
/// unexpectedly ends the change with a 500 that shows the failure's text,
/// and only wrong credentials end it with a 400.
pub proof fn refused_change_status(rules: ChangePasswordRules, e: AuthError, a: Answer)
    requires
        is_refused_change(rules, e, a),
    ensures
        e matches AuthError::UnexpectedError(m) ==> (a matches Err(err)
            && err.response.status == Status::InternalServerError && err.response.reason is None
            && (err.response.body matches crate::responses::Body::Text(t) && t@ == m@)
            && err.cause@ == m@),
        e is InvalidCredentials ==> (match a {
            Ok(r) => r.status == Status::BadRequest,
            Err(err) => err.response.status == Status::BadRequest,
        }),
{
}

impl CredentialCheck {
    #[verifier::type_invariant]
    spec fn allowed(self) -> bool {
        password_length_ok(self.new_password@)
    }

    /// The rules the change follows.
    pub closed spec fn rules_spec(self) -> ChangePasswordRules {
        self.rules
    }

    /// The id of the user whose password changes.
    pub closed spec fn user_id_spec(self) -> u128 {
        self.user_id
    }

    /// The user's name.
    pub closed spec fn username_spec(self) -> Seq<char> {
        self.username@
    }

    /// The password the user gave as the current one.
    pub closed spec fn current_password_spec(self) -> Seq<char> {
        self.current_password@
    }

    /// The new password.
    pub closed spec fn new_password_spec(self) -> Seq<char> {
        self.new_password@
    }

    /// The credentials to check: the user's name and the password given as
    /// the current one.
    pub fn credentials(&self) -> (c: Credentials)
        ensures
            c.username@ == self.username_spec(),
            c.password@ == self.current_password_spec(),
    {
        Credentials { username: self.username.clone(), password: self.current_password.clone() }
    }

    /// Continues with the outcome of the credential check: the new password
    /// is stored next; a refusal ends the change.
    pub fn credentials_checked(self, checked: Result<u128, AuthError>) -> (res: Result<
        PasswordUpdate,
        Answer,
    >)
        ensures
            checked is Ok ==> (res matches Ok(u) && u.rules_spec() == self.rules_spec()
                && u.user_id_spec() == self.user_id_spec() && u.new_password_spec()
                == self.new_password_spec()),
            checked matches Err(e) ==> (res matches Err(a) && is_refused_change(
                self.rules_spec(),
                e,
                a,
            )),
    {
        proof {
            use_type_invariant(&self);
        }
        match checked {
            Ok(_) => Ok(
                PasswordUpdate {
                    rules: self.rules,
                    user_id: self.user_id,
                    new_password: self.new_password,
                },
            ),
            Err(AuthError::InvalidCredentials(_)) => match self.rules {
                ChangePasswordRules::Handlers => {
                    let reason = "The current password is incorrect.";
                    Err(
                        Err(
                            InternalError {
                                cause: String::from_str(reason),
                                response: Response {
                                    status: Status::BadRequest,
                                    reason: Some(String::from_str(reason)),
                                    body: crate::responses::Body::Empty,
                                },
                            },
                        ),
                    )
                },
                ChangePasswordRules::Routes => Err(Ok(empty_response(Status::BadRequest))),
            },
            Err(AuthError::UnexpectedError(m)) => Err(Err(e500(m))),
        }
    }
}

/// A password change whose credentials were checked, waiting for the new
/// password to be stored.
pub struct PasswordUpdate {
    rules: ChangePasswordRules,
    user_id: u128,
    new_password: String,
}

impl PasswordUpdate {
    #[verifier::type_invariant]
    spec fn allowed(self) -> bool {
        password_length_ok(self.new_password@)
    }

    /// The rules the change follows.
    pub closed spec fn rules_spec(self) -> ChangePasswordRules {
        self.rules
    }

    /// The id of the user whose password changes.
    pub closed spec fn user_id_spec(self) -> u128 {
        self.user_id
    }

    /// The new password.
    pub closed spec fn new_password_spec(self) -> Seq<char> {
        self.new_password@
    }

    /// The id of the user whose password is stored.
    pub fn user_id(&self) -> (id: u128)
        ensures
            id == self.user_id_spec(),
    {
        self.user_id
    }

    /// The password to store. It is always 12 to 128 characters long.
    pub fn new_password(&self) -> (p: &str)
        ensures
            p@ == self.new_password_spec(),
            password_length_ok(p@),
    {
        proof {
            use_type_invariant(self);
        }
        self.new_password.as_str()
    }

    /// Finishes the change with the outcome of storing the password: 200, or
    /// 500 when it could not be stored.
    pub fn password_changed(self, stored: Result<(), String>) -> (a: Answer)
        ensures
            stored is Ok ==> (a matches Ok(r) && is_empty_response(r, Status::Success)),
            stored matches Err(m) ==> (a matches Err(e) && is_e500(e, m@)),
    {
        match stored {
            Ok(()) => Ok(empty_response(Status::Success)),
            Err(m) => Err(e500(m)),
        }
    }
}

/// `a` is how the JSON API refuses a request whose new password is not
/// allowed or does not match its confirmation.
pub open spec fn is_refused_request(data: PasswordChangeData, a: Answer) -> bool {
    if !password_length_ok(data.new_password@) {
        a matches Err(e) && e.cause@ == password_length_reason(data.new_password@)
            && is_bad_request_json(e.response, password_length_reason(data.new_password@))
    } else {
        a matches Err(e) && e.cause@ == passwords_differ_reason() && is_bad_request_json(
            e.response,
            passwords_differ_reason(),
        )
    }
}

/// A request the JSON API refuses before any lookup is answered with a 400
/// that names the reason: the length when it is wrong, the mismatch
/// otherwise.
pub proof fn refused_request_answers(data: PasswordChangeData, a: Answer)
    requires
        is_refused_request(data, a),
    ensures
        a matches Err(e) && e.response.status == Status::BadRequest,
        !password_length_ok(data.new_password@) ==> (a matches Err(e) && e.cause@
            == password_length_reason(data.new_password@)),
        password_length_ok(data.new_password@) ==> (a matches Err(e) && e.cause@
            == passwords_differ_reason()),
{
}

/// Starts a password change through the JSON API for the logged-in user
/// `user_id`: the new password must be 12 to 128 characters long and equal to its
/// confirmation.
pub fn change_password(data: PasswordChangeData, user_id: u128) -> (res: Result<
    UsernameLookup,
    Answer,
>)
    ensures
        res is Ok <==> password_length_ok(data.new_password@) && data.new_password@
            == data.new_password_check@,
        res matches Ok(l) ==> l.rules_spec() == ChangePasswordRules::Handlers && l.user_id_spec()
            == user_id && l.current_password_spec() == data.current_password@
            && l.new_password_spec() == data.new_password@,
        res matches Err(a) ==> is_refused_request(data, a),
{
    match validate_password_length(data.new_password.as_str()) {
        Ok(()) => {},
        Err((e, r)) => {
            return Err(Err(InternalError { cause: e, response: r }));
        },
    }
    if data.new_password != data.new_password_check {
        let reason = "Two different passwords were entered - the field values must match.";
        return Err(
            Err(
                InternalError {
                    cause: String::from_str(reason),
                    response: to_bad_request_response(reason),
                },
            ),
        );
    }
    Ok(
        UsernameLookup::new(
            ChangePasswordRules::Handlers,
            user_id,
            data.current_password,
            data.new_password,
        ),
    )
}

} // verus!
