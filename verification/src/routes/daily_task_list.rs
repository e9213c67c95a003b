//! The older daily-task-list endpoint. It answers like the JSON API's, but
//! a list it creates is named "list name" and has no description.

use vstd::prelude::*;
use crate::domain::ListRow;
use crate::handlers::daily_task_list::{DailyListStep, ListCreation, TasksFetch, is_list_step};
use crate::ids::{is_random_uuid, new_random_id};
use crate::queries::{ListLookup, NewList};
use crate::responses::{InternalError, e500, is_e500};

verus! {

/// `l` is the daily task list the older endpoint creates for `user_id`,
/// whatever its id.
pub open spec fn is_plain_daily_list(l: NewList, user_id: u128) -> bool {
    &&& l.created_by_user_id == user_id
    &&& l.name@ == "list name"@
    &&& l.description is None
}

/// The daily task list row the older endpoint creates, with the given id.
pub fn plain_daily_list_row(list_id: u128, user_id: u128) -> (row: NewList)
    ensures
        row.list_id == list_id,
        is_plain_daily_list(row, user_id),
{
    NewList { list_id, name: String::from_str("list name"), created_by_user_id: user_id, description: None }
}

/// The daily task list row the older endpoint creates, under a fresh random
/// id.
pub fn create_new_list(user_id: u128) -> (row: NewList)
    ensures
        is_random_uuid(row.list_id),
        is_plain_daily_list(row, user_id),
{
    plain_daily_list_row(new_random_id(), user_id)
}

/// Given the user's daily task list as looked up, decides whether to use it
/// or to create a new one.
pub fn get_list_data(found: Option<ListRow>, user_id: u128) -> (res: ListLookup)
    ensures
        found matches Some(row) ==> res == ListLookup::Found(row),
        found is None ==> (res matches ListLookup::Create(l) && is_random_uuid(l.list_id)
            && is_plain_daily_list(l, user_id)),
{
    match found {
        Some(row) => ListLookup::Found(row),
        None => ListLookup::Create(create_new_list(user_id)),
    }
}

/// A request for the daily task list of `user_id` at the older endpoint,
/// which looks up the list without looking up the user's name first.
pub struct PlainListLookup {
    user_id: u128,
}

/// Starts answering a request for the daily task list of the logged-in user
/// `user_id` at the older endpoint; the list is looked up first.
pub fn get_daily_task_list(user_id: u128) -> (r: PlainListLookup)
    ensures
        r.user_id_spec() == user_id,
{
    PlainListLookup { user_id }
}

impl PlainListLookup {
    /// The user whose list is asked for.
    pub closed spec fn user_id_spec(self) -> u128 {
        self.user_id
    }

    /// The user whose daily list is looked up.
    pub fn user_id(&self) -> (id: u128)
        ensures
            id == self.user_id_spec(),
    {
        self.user_id
    }

    /// Continues with the looked-up daily list: a list found is used, a
    /// missing one is created (named "list name", without description), a
    /// failed lookup is a 500.
    pub fn list_found(self, found: Result<Option<ListRow>, String>) -> (res: Result<
        DailyListStep,
        InternalError<String>,
    >)
        ensures
            found matches Ok(f) ==> (res matches Ok(s) && is_list_step(
                f,
                s,
                |l: NewList| is_plain_daily_list(l, self.user_id_spec()),
            )),
            found matches Err(m) ==> (res matches Err(e) && is_e500(e, m@)),
    {
        match found {
            Ok(f) => Ok(
                match get_list_data(f, self.user_id) {
                    ListLookup::Found(row) => DailyListStep::Found(TasksFetch::new(row)),
                    ListLookup::Create(list) => DailyListStep::Create(ListCreation::new(list)),
                },
            ),
            Err(m) => Err(e500(m)),
        }
    }
}

} // verus!
