use daily_tasks::domain::CreateUserData;
use daily_tasks::errors::CreateUserError;
use daily_tasks::handlers::create_user::{
    create_user, validate_new_user, validate_user_does_not_exist, validate_username_has_value,
};
use daily_tasks::responses::{Body, InternalError, Response, Status};

fn password_of_len(n: usize) -> String {
    "a".repeat(n)
}

fn request(user_name: &str, email: &str, password: String) -> CreateUserData {
    CreateUserData { email: email.to_string(), user_name: user_name.to_string(), password }
}

fn error_message(r: &Response) -> String {
    match &r.body {
        Body::ErrorMessage(m) => m.clone(),
        _ => panic!("not a JSON error body"),
    }
}

fn refusal(res: Result<daily_tasks::handlers::create_user::UserNameCheck, InternalError<CreateUserError>>) -> InternalError<CreateUserError> {
    match res {
        Ok(_) => panic!("request was accepted"),
        Err(e) => e,
    }
}

#[test]
fn create_user_works() {
    let check = match create_user(request("testuser", "test@example.com", password_of_len(15))) {
        Ok(c) => c,
        Err(_) => panic!("request was refused"),
    };
    assert_eq!(check.user_name(), "testuser");
    let pending = match check.user_checked(Ok(false)) {
        Ok(p) => p,
        Err(_) => panic!("free name was refused"),
    };
    let row = pending.new_user_row();
    assert_eq!(row.user_name, "testuser");
    assert_eq!(row.email, "test@example.com");
    assert_eq!(pending.password(), password_of_len(15));
    let session = match pending.inserted(Ok(())) {
        Ok(s) => s,
        Err(_) => panic!("stored user was refused"),
    };
    assert_eq!(session.user_id(), row.user_id);
    let response = match session.session_started(Ok(())) {
        Ok(r) => r,
        Err(_) => panic!("sign-up failed"),
    };
    assert_eq!(response.status, Status::Success);
    match response.body {
        Body::User(u) => {
            assert_eq!(u.user_id, row.user_id);
            assert_eq!(u.user_name, "testuser");
        }
        _ => panic!("not a user body"),
    }
    let cookie = daily_tasks::startup::session_cookie(false, 3600);
    assert!(cookie.name.contains("session_id"));
}

#[test]
fn create_user_fails_with_short_password() {
    let e = refusal(create_user(request("testuser", "test@example.com", password_of_len(11))));
    assert_eq!(e.response.status.code(), 400);
    assert!(error_message(&e.response)
        .contains("The new password is too short - it must be between 12 and 128 characters long."));
    match e.cause {
        CreateUserError::InvalidPassword(m) => assert!(m.contains("too short")),
        _ => panic!("wrong error"),
    }
}

#[test]
fn create_user_fails_with_long_password() {
    let e = refusal(create_user(request("testuser", "test@example.com", password_of_len(129))));
    assert_eq!(e.response.status.code(), 400);
    assert!(error_message(&e.response)
        .contains("The new password is too long - it must be between 12 and 128 characters long."));
}

#[test]
fn create_user_fails_when_user_name_is_empty() {
    let e = refusal(create_user(request("", "test@example.com", password_of_len(15))));
    assert_eq!(e.response.status.code(), 400);
    assert!(error_message(&e.response).contains("Username must have a value"));
    assert!(matches!(e.cause, CreateUserError::InvalidUsername));
}

#[test]
fn create_user_fails_when_user_already_exists() {
    let check = match create_user(request("testuser", "test@example.com", password_of_len(15))) {
        Ok(c) => c,
        Err(_) => panic!("request was refused"),
    };
    let e = match check.user_checked(Ok(true)) {
        Ok(_) => panic!("taken name was accepted"),
        Err(e) => e,
    };
    assert_eq!(e.response.status.code(), 400);
    assert!(error_message(&e.response).contains("User already exists"));
    assert!(matches!(e.cause, CreateUserError::UserAlreadyExists));
}

#[test]
fn create_user_fails_with_invalid_email() {
    let e = refusal(create_user(request("test", "test", password_of_len(15))));
    assert_eq!(e.response.status.code(), 400);
    assert!(error_message(&e.response).contains("Email is invalid"));
    assert!(matches!(e.cause, CreateUserError::InvalidEmail));
}

#[test]
fn password_length_bounds_are_inclusive() {
    assert!(create_user(request("u", "u@example.com", password_of_len(12))).is_ok());
    assert!(create_user(request("u", "u@example.com", password_of_len(128))).is_ok());
    assert!(create_user(request("u", "u@example.com", password_of_len(11))).is_err());
    assert!(create_user(request("u", "u@example.com", password_of_len(129))).is_err());
}

#[test]
fn password_is_checked_before_name_and_email() {
    let e = refusal(create_user(request("", "bad", password_of_len(3))));
    assert!(matches!(e.cause, CreateUserError::InvalidPassword(_)));
    let e = refusal(create_user(request("", "bad", password_of_len(20))));
    assert!(matches!(e.cause, CreateUserError::InvalidUsername));
}

#[test]
fn email_verdict_is_taken_as_given() {
    let data = request("name", "anything", password_of_len(20));
    assert!(validate_new_user(&data, true).is_ok());
    match validate_new_user(&data, false) {
        Err(e) => assert!(matches!(e.cause, CreateUserError::InvalidEmail)),
        Ok(()) => panic!("invalid address accepted"),
    }
}

#[test]
fn valid_addresses_pass_the_email_check() {
    assert!(create_user(request("n", "email@here.com", password_of_len(20))).is_ok());
    assert!(create_user(request("n", "abc@bar", password_of_len(20))).is_ok());
    assert!(create_user(request("n", "abc@", password_of_len(20))).is_err());
    assert!(create_user(request("n", "", password_of_len(20))).is_err());
}

#[test]
fn username_check_refuses_only_empty_names() {
    assert!(validate_username_has_value("x").is_ok());
    match validate_username_has_value("") {
        Err(e) => assert_eq!(e.response.status, Status::BadRequest),
        Ok(()) => panic!("empty name accepted"),
    }
}

#[test]
fn failed_user_lookup_is_a_server_error() {
    match validate_user_does_not_exist(Err("connection lost".to_string())) {
        Err(e) => {
            assert_eq!(e.response.status.code(), 500);
            assert!(matches!(e.response.body, Body::Empty));
            match e.cause {
                CreateUserError::UnexpectedError(m) => assert_eq!(m, "connection lost"),
                _ => panic!("wrong error"),
            }
        }
        Ok(()) => panic!("failed lookup accepted"),
    }
    assert!(validate_user_does_not_exist(Ok(false)).is_ok());
}

#[test]
fn failed_insert_and_failed_session_are_server_errors() {
    let check = create_user(request("n", "n@example.com", password_of_len(20))).ok().unwrap();
    let pending = check.user_checked(Ok(false)).ok().unwrap();
    match pending.inserted(Err("duplicate key".to_string())) {
        Err(e) => {
            assert_eq!(e.response.status.code(), 500);
            assert!(matches!(e.cause, CreateUserError::UserInsertError(_)));
        }
        Ok(_) => panic!("failed insert accepted"),
    }
    let check = create_user(request("n", "n@example.com", password_of_len(20))).ok().unwrap();
    let pending = check.user_checked(Ok(false)).ok().unwrap();
    let session = pending.inserted(Ok(())).ok().unwrap();
    match session.session_started(Err("store down".to_string())) {
        Err(e) => {
            assert_eq!(e.response.status.code(), 500);
            assert!(matches!(e.cause, CreateUserError::StartSessionError(_)));
        }
        Ok(_) => panic!("failed session accepted"),
    }
}

#[test]
fn new_user_ids_are_random_uuids() {
    let check = create_user(request("n", "n@example.com", password_of_len(20))).ok().unwrap();
    let pending = check.user_checked(Ok(false)).ok().unwrap();
    let a = pending.new_user_row().user_id;
    assert_eq!(pending.new_user_row().user_id, a);
    assert_eq!(a & 0xF000_C000_0000_0000_0000u128, 0x4000_8000_0000_0000_0000u128);
    assert_ne!(a, 0);
    let check = create_user(request("n", "n@example.com", password_of_len(20))).ok().unwrap();
    let other = check.user_checked(Ok(false)).ok().unwrap();
    assert_ne!(other.new_user_row().user_id, a);
}

#[test]
fn sign_up_answers_with_the_stored_id() {
    let check = create_user(request("kim", "kim@example.com", password_of_len(20))).ok().unwrap();
    let pending = check.user_checked(Ok(false)).ok().unwrap();
    let stored_id = pending.new_user_row().user_id;
    let session = pending.inserted(Ok(())).ok().unwrap();
    assert_eq!(session.user_id(), stored_id);
    match session.session_started(Ok(())) {
        Ok(r) => match r.body {
            Body::User(u) => assert_eq!(u.user_id, stored_id),
            _ => panic!("not a user body"),
        },
        Err(_) => panic!("sign-up failed"),
    }
}

#[test]
fn password_length_counts_characters() {
    let e = refusal(create_user(request("u", "u@example.com", "é".repeat(11))));
    assert!(matches!(e.cause, CreateUserError::InvalidPassword(_)));
    assert!(create_user(request("u", "u@example.com", "é".repeat(12))).is_ok());
    assert!(create_user(request("u", "u@example.com", "é".repeat(128))).is_ok());
    assert!(create_user(request("u", "u@example.com", "é".repeat(129))).is_err());
}

#[test]
fn address_without_at_sign_is_refused() {
    for email in ["test", "example.com", "a b"] {
        let e = refusal(create_user(request("u", email, password_of_len(20))));
        assert!(matches!(e.cause, CreateUserError::InvalidEmail));
    }
}

#[test]
fn create_user_error_messages() {
    assert_eq!(CreateUserError::InvalidPassword(String::new()).message(), "Password is invalid");
    assert_eq!(CreateUserError::UserInsertError(String::new()).message(), "Failed to insert new user");
    assert_eq!(
        CreateUserError::StartSessionError(String::new()).message(),
        "Failed to start session for new user"
    );
    assert_eq!(CreateUserError::UserAlreadyExists.message(), "User already exists");
    assert_eq!(CreateUserError::InvalidUsername.message(), "Username must have a value");
    assert_eq!(CreateUserError::InvalidEmail.message(), "User email is invalid");
    assert_eq!(CreateUserError::UnexpectedError(String::new()).message(), "Something went wrong");
}
