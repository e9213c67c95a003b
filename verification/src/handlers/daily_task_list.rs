//! The logged-in user's daily task list. The user's name is looked up,
//! then the user's daily list, which is created when there is none, then
//! the tasks in it. Each stage is a type of its own, so a step runs only
//! when the one before succeeded, and any failure is answered with 500.

use vstd::prelude::*;
use crate::domain::{List, ListRow, Task};
use crate::ids::is_random_uuid;
use crate::queries::{ListLookup, NewList, get_list_data, is_new_daily_list};
use crate::responses::{Body, InternalError, Response, Status, e500, is_e500};

verus! {

/// `r` is a 200 answer whose JSON body is the list `row` with `tasks` as its
/// items.
pub open spec fn is_list_response(r: Response, row: ListRow, tasks: Vec<Task>) -> bool {
    &&& r.status == Status::Success
    &&& r.reason is None
    &&& r.body == Body::List(
        List {
            list_id: row.list_id,
            name: row.name,
            created_date: row.created_date,
            description: row.description,
            list_items: Some(tasks),
        },
    )
}

/// The answer to a successful fetch is a 200 whose list is the daily list
/// row and whose items are exactly the fetched tasks, in order: no task is
/// left out, added or moved, whatever the tasks hold.
pub proof fn list_answer_carries_every_task(r: Response, row: ListRow, tasks: Vec<Task>)
    requires
        is_list_response(r, row, tasks),
    ensures
        r.status == Status::Success,
        r.reason is None,
        r.body matches Body::List(l) && l.list_id == row.list_id && l.name == row.name
            && l.created_date == row.created_date && l.description == row.description
            && (l.list_items matches Some(v) && v@ == tasks@ && v@.len() == tasks@.len()),
{
}

/// A request for the daily task list of `user_id`, waiting for the user's
/// name to be looked up.
pub struct DailyListRequest {
    user_id: u128,
}

/// Starts answering a request for the daily task list of the logged-in user
/// `user_id`; the user's name is looked up first.
pub fn get_daily_task_list(user_id: u128) -> (r: DailyListRequest)
    ensures
        r.user_id_spec() == user_id,
{
    DailyListRequest { user_id }
}

impl DailyListRequest {
    /// The user whose list is asked for.
    pub closed spec fn user_id_spec(self) -> u128 {
        self.user_id
    }

    /// The user whose name is looked up.
    pub fn user_id(&self) -> (id: u128)
        ensures
            id == self.user_id_spec(),
    {
        self.user_id
    }

    /// Continues with the looked-up name: the user's daily list is looked up
    /// next; a failed lookup is a 500.
    pub fn username_found(self, user_name: Result<String, String>) -> (res: Result<
        DailyListLookup,
        InternalError<String>,
    >)
        ensures
            user_name matches Ok(n) ==> (res matches Ok(l) && l.user_id_spec() == self.user_id_spec()
                && l.user_name_spec() == n@),
            user_name matches Err(m) ==> (res matches Err(e) && is_e500(e, m@)),
    {
        match user_name {
            Ok(n) => Ok(DailyListLookup { user_id: self.user_id, user_name: n }),
            Err(m) => Err(e500(m)),
        }
    }
}

/// What follows the lookup of a daily list: fetch the tasks of the list
/// found, or first create the list.
pub enum DailyListStep {
    Found(TasksFetch),
    Create(ListCreation),
}

/// `s` is the step after a successful lookup of a user's daily list that
/// found `found`; a missing list is created as `is_new` says.
pub open spec fn is_list_step(
    found: Option<ListRow>,
    s: DailyListStep,
    is_new: spec_fn(NewList) -> bool,
) -> bool {
    match found {
        Some(row) => s matches DailyListStep::Found(t) && t.row_spec() == row,
        None => s matches DailyListStep::Create(c) && is_random_uuid(c.list_spec().list_id) && is_new(
            c.list_spec(),
        ),
    }
}

/// A daily list that was found is used as it is, and a list is created only
/// when none was found.
pub proof fn list_step_uses_found_list(
    found: Option<ListRow>,
    s: DailyListStep,
    is_new: spec_fn(NewList) -> bool,
)
    requires
        is_list_step(found, s, is_new),
    ensures
        s is Create <==> found is None,
        found matches Some(row) ==> (s matches DailyListStep::Found(t) && t.row_spec() == row),
{
}

/// The user's name is known; the user's daily list is looked up next.
pub struct DailyListLookup {
    user_id: u128,
    user_name: String,
}

impl DailyListLookup {
    /// The user whose list is asked for.
    pub closed spec fn user_id_spec(self) -> u128 {
        self.user_id
    }

    /// The user's name.
    pub closed spec fn user_name_spec(self) -> Seq<char> {
        self.user_name@
    }

    /// The user whose daily list is looked up.
    pub fn user_id(&self) -> (id: u128)
        ensures
            id == self.user_id_spec(),
    {
        self.user_id
    }

    /// Continues with the looked-up daily list: a list found is used, a
    /// missing one is created (named "New Daily Task List", described as the
    /// user's), a failed lookup is a 500.
    pub fn list_found(self, found: Result<Option<ListRow>, String>) -> (res: Result<
        DailyListStep,
        InternalError<String>,
    >)
        ensures
            found matches Ok(f) ==> (res matches Ok(s) && is_list_step(
                f,
                s,
                |l: NewList| is_new_daily_list(l, self.user_id_spec(), self.user_name_spec()),
            )),
            found matches Err(m) ==> (res matches Err(e) && is_e500(e, m@)),
    {
        match found {
            Ok(f) => Ok(
                match get_list_data(f, self.user_id, self.user_name.as_str()) {
                    ListLookup::Found(row) => DailyListStep::Found(TasksFetch { row }),
                    ListLookup::Create(list) => DailyListStep::Create(ListCreation { list }),
                },
            ),
            Err(m) => Err(e500(m)),
        }
    }
}

/// No daily list was found; this one is to be created.
pub struct ListCreation {
    list: NewList,
}

impl ListCreation {
    /// The creation of `list`.
    pub(crate) fn new(list: NewList) -> (c: ListCreation)
        ensures
            c.list_spec() == list,
    {
        ListCreation { list }
    }

    /// The list to create.
    pub closed spec fn list_spec(self) -> NewList {
        self.list
    }

    /// The list to create.
    pub fn new_list(&self) -> (l: &NewList)
        ensures
            *l == self.list_spec(),
    {
        &self.list
    }

    /// Continues with the created list as the database returns it: its tasks
    /// are fetched next; a failed insert is a 500.
    pub fn list_created(self, created: Result<ListRow, String>) -> (res: Result<
        TasksFetch,
        InternalError<String>,
    >)
        ensures
            created matches Ok(row) ==> (res matches Ok(t) && t.row_spec() == row),
            created matches Err(m) ==> (res matches Err(e) && is_e500(e, m@)),
    {
        match created {
            Ok(row) => Ok(TasksFetch { row }),
            Err(m) => Err(e500(m)),
        }
    }
}

/// The daily list is known; its tasks are fetched next.
pub struct TasksFetch {
    row: ListRow,
}

impl TasksFetch {
    /// The fetch of the tasks of `row`.
    pub(crate) fn new(row: ListRow) -> (t: TasksFetch)
        ensures
            t.row_spec() == row,
    {
        TasksFetch { row }
    }

    /// The daily list.
    pub closed spec fn row_spec(self) -> ListRow {
        self.row
    }

    /// The list whose tasks are fetched.
    pub fn list_id(&self) -> (id: u128)
        ensures
            id == self.row_spec().list_id,
    {
        self.row.list_id
    }

    /// Finishes with the fetched tasks: 200 with the list and its tasks, or
    /// 500 when they could not be fetched.
    pub fn tasks_found(self, tasks: Result<Vec<Task>, String>) -> (res: Result<
        Response,
        InternalError<String>,
    >)
        ensures
            tasks matches Ok(ts) ==> (res matches Ok(r) && is_list_response(r, self.row_spec(), ts)),
            tasks matches Err(m) ==> (res matches Err(e) && is_e500(e, m@)),
    {
        match tasks {
            Ok(ts) => Ok(
                Response {
                    status: Status::Success,
                    reason: None,
                    body: Body::List(
                        List {
                            list_id: self.row.list_id,
                            name: self.row.name,
                            created_date: self.row.created_date,
                            description: self.row.description,
                            list_items: Some(ts),
                        },
                    ),
                },
            ),
            Err(m) => Err(e500(m)),
        }
    }
}

} // verus!
