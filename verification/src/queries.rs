//! The rows the service writes to its database. Each new row gets a fresh
//! random UUID; the function that builds the row from that id and the
//! request stands beside the one that draws the id.

use vstd::prelude::*;
use crate::domain::{InsertTaskRequest, ListRow, Timestamp, UpdateTaskRequest};
use crate::ids::{is_random_uuid, new_random_id};

verus! {

/// A new row of the `users` table, before its password hash is added.
pub struct NewUserRow {
    pub user_id: u128,
    pub user_name: String,
    pub email: String,
}

/// The `users` row for a new account with the given id.
pub fn new_user_row(user_id: u128, user_name: &str, email: &str) -> (row: NewUserRow)
    ensures
        row.user_id == user_id,
        row.user_name@ == user_name@,
        row.email@ == email@,
{
    NewUserRow { user_id, user_name: String::from_str(user_name), email: String::from_str(email) }
}

/// The `users` row for a new account, under a fresh random id.
pub fn insert_user_data(user_name: &str, email: &str) -> (row: NewUserRow)
    ensures
        is_random_uuid(row.user_id),
        row.user_name@ == user_name@,
        row.email@ == email@,
{
    new_user_row(new_random_id(), user_name, email)
}

/// A new row of the `lists` table. The row is always a daily task list.
pub struct NewList {
    pub list_id: u128,
    pub name: String,
    pub created_by_user_id: u128,
    pub description: Option<String>,
}

/// The name given to a newly created daily task list.
pub open spec fn daily_list_name() -> Seq<char> {
    "New Daily Task List"@
}

/// The description given to the daily task list created for `user_name`.
pub open spec fn daily_list_description(user_name: Seq<char>) -> Seq<char> {
    "New Daily Task List for "@ + user_name
}

/// `l` is the daily task list that is created for the user `user_id` named
/// `user_name`, whatever its id.
pub open spec fn is_new_daily_list(l: NewList, user_id: u128, user_name: Seq<char>) -> bool {
    &&& l.created_by_user_id == user_id
    &&& l.name@ == daily_list_name()
    &&& l.description matches Some(d) && d@ == daily_list_description(user_name)
}

/// The daily task list row created for a user, with the given list id.
pub fn daily_list_row(list_id: u128, user_id: u128, user_name: &str) -> (row: NewList)
    ensures
        row.list_id == list_id,
        is_new_daily_list(row, user_id, user_name@),
{
    let mut description = String::from_str("New Daily Task List for ");
    description.append(user_name);
    NewList {
        list_id,
        name: String::from_str("New Daily Task List"),
        created_by_user_id: user_id,
        description: Some(description),
    }
}

/// The daily task list row created for a user who has none, under a fresh
/// random id.
pub fn create_new_list(user_id: u128, user_name: &str) -> (row: NewList)
    ensures
        is_random_uuid(row.list_id),
        is_new_daily_list(row, user_id, user_name@),
{
    daily_list_row(new_random_id(), user_id, user_name)
}

/// What to do for a user's daily task list: use the one found, or create
/// this one.
pub enum ListLookup {
    Found(ListRow),
    Create(NewList),
}

/// Given the user's daily task list as looked up, decides whether to use it
/// or to create a new one.
pub fn get_list_data(found: Option<ListRow>, user_id: u128, user_name: &str) -> (res: ListLookup)
    ensures
        found matches Some(row) ==> res == ListLookup::Found(row),
        found is None ==> (res matches ListLookup::Create(l) && is_random_uuid(l.list_id)
            && is_new_daily_list(l, user_id, user_name@)),
{
    match found {
        Some(row) => ListLookup::Found(row),
        None => ListLookup::Create(create_new_list(user_id, user_name)),
    }
}

/// A new row of the `tasks` table.
pub struct NewTaskRow {
    pub task_id: u128,
    pub name: String,
    pub has_child_tasks: bool,
    pub created_by_user_id: u128,
    pub parent_list_id: u128,
    pub notes: String,
    pub due_date: Timestamp,
}

/// The `tasks` row for a new task with the given id, created by `user_id`.
/// A new task has no child tasks.
pub fn new_task_row(task_id: u128, data: InsertTaskRequest, user_id: u128) -> (row: NewTaskRow)
    ensures
        row.task_id == task_id,
        row.name == data.name,
        !row.has_child_tasks,
        row.created_by_user_id == user_id,
        row.parent_list_id == data.parent_list_id,
        row.notes == data.notes,
        row.due_date == data.due_date,
{
    NewTaskRow {
        task_id,
        name: data.name,
        has_child_tasks: false,
        created_by_user_id: user_id,
        parent_list_id: data.parent_list_id,
        notes: data.notes,
        due_date: data.due_date,
    }
}

/// The `tasks` row for a new task created by `user_id`, under a fresh
/// random id.
pub fn insert_task(data: InsertTaskRequest, user_id: u128) -> (row: NewTaskRow)
    ensures
        is_random_uuid(row.task_id),
        row.name == data.name,
        !row.has_child_tasks,
        row.created_by_user_id == user_id,
        row.parent_list_id == data.parent_list_id,
        row.notes == data.notes,
        row.due_date == data.due_date,
{
    new_task_row(new_random_id(), data, user_id)
}

/// The new column values of a task, and the id of the task they overwrite.
pub struct TaskUpdate {
    pub task_id: u128,
    pub name: String,
    pub completed: bool,
    pub parent_list_id: u128,
    pub notes: Option<String>,
    pub due_date: Timestamp,
    pub completed_by_user_id: Option<u128>,
}

/// The update written for a task-update request. The id of the user who
/// sends it is not written and does not select the task.
pub fn update_task_data(data: UpdateTaskRequest, user_id: u128) -> (update: TaskUpdate)
    ensures
        update.task_id == data.task_id,
        update.name == data.name,
        update.completed == data.completed,
        update.parent_list_id == data.parent_list_id,
        update.notes == data.notes,
        update.due_date == data.due_date,
        update.completed_by_user_id == data.completed_by_user_id,
{
    TaskUpdate {
        task_id: data.task_id,
        name: data.name,
        completed: data.completed,
        parent_list_id: data.parent_list_id,
        notes: data.notes,
        due_date: data.due_date,
        completed_by_user_id: data.completed_by_user_id,
    }
}

} // verus!
