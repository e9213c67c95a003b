//! The handlers of the service's endpoints, each split into the decisions it
//! takes between its database and session steps.

pub mod create_user;
pub mod login;
pub mod change_password;
pub mod daily_task_list;
pub mod logout;
pub mod task;
