use daily_tasks::domain::{InsertTaskRequest, ListRow, Task, Timestamp, UpdateTaskRequest};
use daily_tasks::handlers::daily_task_list::{DailyListStep, TasksFetch, get_daily_task_list};
use daily_tasks::handlers::task::{create_task, update_task};
use daily_tasks::queries::{
    ListLookup, create_new_list, daily_list_row, get_list_data, insert_task, insert_user_data,
    new_task_row, new_user_row, update_task_data,
};
use daily_tasks::responses::{Body, Status, e500, to_bad_request_response};

fn row() -> ListRow {
    ListRow {
        list_id: 11,
        name: "Mine".to_string(),
        description: Some("d".to_string()),
        created_date: Timestamp { secs: 1_700_000_000, nanos: 5 },
    }
}

fn is_v4(id: u128) -> bool {
    id & 0xF000_C000_0000_0000_0000u128 == 0x4000_8000_0000_0000_0000u128
}

#[test]
fn existing_daily_list_is_used() {
    match get_list_data(Some(row()), 3, "bob") {
        ListLookup::Found(r) => {
            assert_eq!(r.list_id, 11);
            assert_eq!(r.name, "Mine");
        }
        ListLookup::Create(_) => panic!("created a second list"),
    }
}

#[test]
fn missing_daily_list_is_created() {
    match get_list_data(None, 3, "bob") {
        ListLookup::Create(l) => {
            assert_eq!(l.created_by_user_id, 3);
            assert_eq!(l.name, "New Daily Task List");
            assert_eq!(l.description.as_deref(), Some("New Daily Task List for bob"));
            assert!(is_v4(l.list_id));
        }
        ListLookup::Found(_) => panic!("found a list that is not there"),
    }
    let l = daily_list_row(77, 4, "ann");
    assert_eq!(l.list_id, 77);
    assert_eq!(l.description.as_deref(), Some("New Daily Task List for ann"));
    assert!(is_v4(create_new_list(4, "ann").list_id));
}

#[test]
fn older_endpoint_creates_plain_list() {
    match daily_tasks::routes::daily_task_list::get_list_data(None, 8) {
        ListLookup::Create(l) => {
            assert_eq!(l.name, "list name");
            assert!(l.description.is_none());
            assert_eq!(l.created_by_user_id, 8);
            assert!(is_v4(l.list_id));
        }
        ListLookup::Found(_) => panic!("found a list that is not there"),
    }
    assert!(matches!(
        daily_tasks::routes::daily_task_list::get_list_data(Some(row()), 8),
        ListLookup::Found(_)
    ));
}

fn a_task() -> Task {
    Task {
        task_id: 1,
        name: "t".to_string(),
        completed: false,
        created_by_user_id: 2,
        has_child_tasks: false,
        created_date: Timestamp { secs: 0, nanos: 0 },
        parent_list_id: 11,
        completed_by_user_id: None,
        notes: None,
        due_date: Some(Timestamp { secs: 60, nanos: 0 }),
    }
}

fn found_fetch(step: DailyListStep) -> TasksFetch {
    match step {
        DailyListStep::Found(t) => t,
        DailyListStep::Create(_) => panic!("created a list that exists"),
    }
}

#[test]
fn daily_list_answer_carries_row_and_tasks() {
    let req = get_daily_task_list(2);
    assert_eq!(req.user_id(), 2);
    let lookup = req.username_found(Ok("bob".to_string())).ok().unwrap();
    assert_eq!(lookup.user_id(), 2);
    let fetch = found_fetch(lookup.list_found(Ok(Some(row()))).ok().unwrap());
    assert_eq!(fetch.list_id(), 11);
    let r = fetch.tasks_found(Ok(vec![a_task()])).ok().unwrap();
    assert_eq!(r.status.code(), 200);
    match r.body {
        Body::List(l) => {
            assert_eq!(l.list_id, 11);
            assert_eq!(l.name, "Mine");
            assert_eq!(l.description.as_deref(), Some("d"));
            assert_eq!(l.created_date, Timestamp { secs: 1_700_000_000, nanos: 5 });
            let items = l.list_items.expect("no items");
            assert_eq!(items.len(), 1);
            assert_eq!(items[0].task_id, 1);
        }
        _ => panic!("not a list body"),
    }
}

#[test]
fn daily_list_creates_missing_list_then_fetches_tasks() {
    let lookup = get_daily_task_list(2).username_found(Ok("bob".to_string())).ok().unwrap();
    let creation = match lookup.list_found(Ok(None)).ok().unwrap() {
        DailyListStep::Create(c) => c,
        DailyListStep::Found(_) => panic!("found a list that is not there"),
    };
    let l = creation.new_list();
    assert_eq!(l.created_by_user_id, 2);
    assert_eq!(l.name, "New Daily Task List");
    assert_eq!(l.description.as_deref(), Some("New Daily Task List for bob"));
    assert!(is_v4(l.list_id));
    let fetch = creation.list_created(Ok(row())).ok().unwrap();
    let r = fetch.tasks_found(Ok(vec![])).ok().unwrap();
    match r.body {
        Body::List(l) => assert_eq!(l.list_items.map(|v| v.len()), Some(0)),
        _ => panic!("not a list body"),
    }
}

#[test]
fn daily_list_failures_are_server_errors() {
    let e = get_daily_task_list(2).username_found(Err("no such user".to_string())).err().unwrap();
    assert_eq!(e.response.status.code(), 500);
    assert!(matches!(e.response.body, Body::Text(ref t) if t == "no such user"));
    let lookup = get_daily_task_list(2).username_found(Ok("bob".to_string())).ok().unwrap();
    assert_eq!(lookup.list_found(Err("q".to_string())).err().unwrap().response.status.code(), 500);
    let lookup = get_daily_task_list(2).username_found(Ok("bob".to_string())).ok().unwrap();
    match lookup.list_found(Ok(None)).ok().unwrap() {
        DailyListStep::Create(c) => {
            assert_eq!(c.list_created(Err("i".to_string())).err().unwrap().response.status.code(), 500)
        }
        DailyListStep::Found(_) => panic!("found a list that is not there"),
    }
    let lookup = get_daily_task_list(2).username_found(Ok("bob".to_string())).ok().unwrap();
    let fetch = found_fetch(lookup.list_found(Ok(Some(row()))).ok().unwrap());
    assert_eq!(fetch.tasks_found(Err("t".to_string())).err().unwrap().cause, "t");
}

#[test]
fn older_daily_list_endpoint() {
    use_older_endpoint();
}

fn use_older_endpoint() {
    let lookup = daily_tasks::routes::daily_task_list::get_daily_task_list(8);
    assert_eq!(lookup.user_id(), 8);
    match lookup.list_found(Ok(None)).ok().unwrap() {
        DailyListStep::Create(c) => {
            assert_eq!(c.new_list().name, "list name");
            assert!(c.new_list().description.is_none());
            assert_eq!(c.new_list().created_by_user_id, 8);
        }
        DailyListStep::Found(_) => panic!("found a list that is not there"),
    }
    let lookup = daily_tasks::routes::daily_task_list::get_daily_task_list(8);
    let fetch = found_fetch(lookup.list_found(Ok(Some(row()))).ok().unwrap());
    assert_eq!(fetch.tasks_found(Ok(vec![a_task()])).ok().unwrap().status, Status::Success);
    let lookup = daily_tasks::routes::daily_task_list::get_daily_task_list(8);
    assert!(lookup.list_found(Err("x".to_string())).is_err());
}

#[test]
fn new_task_rows() {
    let req = InsertTaskRequest {
        name: "write".to_string(),
        parent_list_id: 5,
        notes: "n".to_string(),
        due_date: Timestamp { secs: 10, nanos: 0 },
    };
    let r = insert_task(req, 9);
    assert!(is_v4(r.task_id));
    assert_eq!(r.name, "write");
    assert!(!r.has_child_tasks);
    assert_eq!(r.created_by_user_id, 9);
    assert_eq!(r.parent_list_id, 5);
    assert_eq!(r.notes, "n");
    assert_eq!(r.due_date, Timestamp { secs: 10, nanos: 0 });
    let req = InsertTaskRequest {
        name: "x".to_string(),
        parent_list_id: 1,
        notes: String::new(),
        due_date: Timestamp { secs: 0, nanos: 0 },
    };
    assert_eq!(new_task_row(123, req, 2).task_id, 123);
}

#[test]
fn task_updates_copy_the_request() {
    let req = UpdateTaskRequest {
        task_id: 4,
        name: "done".to_string(),
        completed: true,
        parent_list_id: 6,
        notes: Some("k".to_string()),
        due_date: Timestamp { secs: 99, nanos: 1 },
        completed_by_user_id: Some(8),
    };
    let u = update_task_data(req, 1234);
    assert_eq!(u.task_id, 4);
    assert_eq!(u.name, "done");
    assert!(u.completed);
    assert_eq!(u.parent_list_id, 6);
    assert_eq!(u.notes.as_deref(), Some("k"));
    assert_eq!(u.due_date, Timestamp { secs: 99, nanos: 1 });
    assert_eq!(u.completed_by_user_id, Some(8));
}

#[test]
fn task_write_answers() {
    assert_eq!(create_task(Ok(())).ok().map(|r| r.status), Some(Status::Success));
    assert_eq!(update_task(Ok(())).ok().map(|r| r.status), Some(Status::Success));
    match create_task(Err("insert failed".to_string())) {
        Err(e) => {
            assert_eq!(e.cause, "insert failed");
            assert_eq!(e.response.status.code(), 500);
            assert!(matches!(e.response.body, Body::Empty));
        }
        Ok(_) => panic!("failure answered as success"),
    }
    assert!(update_task(Err(String::new())).is_err());
}

#[test]
fn new_user_rows() {
    let r = insert_user_data("bob", "b@x.io");
    assert!(is_v4(r.user_id));
    assert_eq!(r.user_name, "bob");
    assert_eq!(r.email, "b@x.io");
    assert_eq!(new_user_row(3, "a", "e").user_id, 3);
}

#[test]
fn response_helpers() {
    let r = to_bad_request_response("nope");
    assert_eq!(r.status, Status::BadRequest);
    assert!(r.reason.is_none());
    assert!(matches!(r.body, Body::ErrorMessage(ref m) if m == "nope"));
    let e = e500("boom".to_string());
    assert_eq!(e.cause, "boom");
    assert_eq!(e.response.status.code(), 500);
    assert!(matches!(e.response.body, Body::Text(ref t) if t == "boom"));
    assert_eq!(Status::Unauthorized.code(), 401);
}
