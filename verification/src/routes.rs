//! The older versions of some endpoints, which the service still carries.

pub mod daily_task_list;
pub mod login;
pub mod logout;
pub mod password;
