//! The records the service reads and writes. Identifiers are UUIDs held as
//! big-endian `u128`s, instants are UTC timestamps held as seconds and
//! nanoseconds since the Unix epoch.

use vstd::prelude::*;

verus! {

/// An instant in UTC: whole seconds since the Unix epoch and the
/// nanoseconds past that second.
#[derive(Clone, Copy, Debug, PartialEq, Eq, Structural)]
pub struct Timestamp {
    pub secs: i64,
    pub nanos: u32,
}

/// A sign-up request.
pub struct CreateUserData {
    pub email: String,
    pub user_name: String,
    pub password: String,
}

/// What a successful sign-up or login sends back.
pub struct UserResponse {
    pub user_id: u128,
    pub user_name: String,
}

/// An item of a task list.
pub struct Task {
    pub task_id: u128,
    pub name: String,
    pub completed: bool,
    pub created_by_user_id: u128,
    pub has_child_tasks: bool,
    pub created_date: Timestamp,
    pub parent_list_id: u128,
    pub completed_by_user_id: Option<u128>,
    pub notes: Option<String>,
    pub due_date: Option<Timestamp>,
}

/// A task list together with its items, as sent to the client.
pub struct List {
    pub list_id: u128,
    pub name: String,
    pub created_date: Timestamp,
    pub description: Option<String>,
    pub list_items: Option<Vec<Task>>,
}

/// A request to add a task to a list.
pub struct InsertTaskRequest {
    pub name: String,
    pub parent_list_id: u128,
    pub notes: String,
    pub due_date: Timestamp,
}

/// A request to overwrite a task.
pub struct UpdateTaskRequest {
    pub task_id: u128,
    pub name: String,
    pub completed: bool,
    pub parent_list_id: u128,
    pub notes: Option<String>,
    pub due_date: Timestamp,
    pub completed_by_user_id: Option<u128>,
}

/// A registered user.
pub struct User {
    pub user_id: u128,
    pub user_name: String,
    pub account_created_on: Timestamp,
}

/// The columns of a task list row that the service reads back.
pub struct ListRow {
    pub list_id: u128,
    pub name: String,
    pub description: Option<String>,
    pub created_date: Timestamp,
}

/// A request to change the password of the logged-in user.
pub struct PasswordChangeData {
    pub current_password: String,
    pub new_password: String,
    pub new_password_check: String,
}

/// A login request.
pub struct Credentials {
    pub username: String,
    pub password: String,
}

} // verus!
