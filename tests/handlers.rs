use todo_api::{
    contains_text, create_todo_handler, delete_todo_handler, edit_todo_handler, edit_todo_result,
    get_todo_handler, is_unique_violation, not_found_message, todo_list_handler,
    ApiResponse, Body, DbError, EditStep, FilterOptions, ToDo, UpdatetodoSchema,
};

const ID: u128 = 0xa1a2a3a4_b1b2_c1c2_d1d2_d3d4d5d6d7d8;
const ID_TEXT: &str = "a1a2a3a4-b1b2-c1c2-d1d2-d3d4d5d6d7d8";

fn todo(id: u128, title: &str, content: &str) -> ToDo {
    ToDo {
        id,
        title: title.to_string(),
        content: content.to_string(),
        completed: false,
        created_at: 1_700_000_000_000_000,
        updated_at: 1_700_000_000_000_000,
    }
}

fn db_error(text: &str) -> DbError {
    DbError { text: text.to_string(), detail: format!("Database({:?})", text) }
}

fn message(r: &ApiResponse) -> String {
    match &r.body {
        Body::Fail { message } => message.clone(),
        Body::Error { message } => message.clone(),
        other => panic!("no message in {:?}", other),
    }
}

fn record(r: &ApiResponse) -> &ToDo {
    match &r.body {
        Body::Todo { todo } => todo,
        other => panic!("no record in {:?}", other),
    }
}

#[test]
fn create_delete_get_scenario() {
    let created = create_todo_handler(Ok(todo(ID, "buy milk", "2%")));
    assert_eq!(created.status, 201);
    assert_eq!(record(&created).title, "buy milk");
    let id = record(&created).id;
    let deleted = delete_todo_handler(id, Ok(1));
    assert_eq!(deleted.status, 204);
    assert!(matches!(deleted.body, Body::Empty));
    let got = get_todo_handler(id, Err(db_error("no rows returned by a query that expected to return at least one row")));
    assert_eq!(got.status, 404);
    assert!(message(&got).contains(ID_TEXT));
}

#[test]
fn identifier_text_is_hyphenated_lowercase() {
    assert!(not_found_message(ID).contains(ID_TEXT));
    assert_eq!(not_found_message(0), "todo with ID: 00000000-0000-0000-0000-000000000000 not found");
    assert_eq!(
        not_found_message(u128::MAX),
        "todo with ID: ffffffff-ffff-ffff-ffff-ffffffffffff not found"
    );
}

#[test]
fn not_found_message_wording() {
    assert_eq!(not_found_message(ID), format!("todo with ID: {} not found", ID_TEXT));
}

#[test]
fn substring_search() {
    assert!(contains_text("abcabd", "abd"));
    assert!(contains_text("abc", ""));
    assert!(contains_text("", ""));
    assert!(!contains_text("ab", "abc"));
    assert!(!contains_text("abcab", "abd"));
    assert!(contains_text("héllo wörld", "ö"));
}

#[test]
fn unique_violation_detected() {
    let e = db_error("error returned from database: duplicate key value violates unique constraint \"todos_title_key\"");
    assert!(is_unique_violation(&e));
    assert!(!is_unique_violation(&db_error("connection refused")));
}

#[test]
fn create_with_taken_title_conflicts() {
    let r = create_todo_handler(Err(db_error(
        "error returned from database: duplicate key value violates unique constraint \"todos_title_key\"",
    )));
    assert_eq!(r.status, 409);
    assert!(matches!(&r.body, Body::Fail { .. }));
    assert_eq!(message(&r), "todo with that title already exists");
    let first = get_todo_handler(ID, Ok(todo(ID, "buy milk", "2%")));
    assert_eq!(first.status, 200);
    assert_eq!(record(&first).content, "2%");
}

#[test]
fn create_other_failure_reports_detail() {
    let e = db_error("pool timed out while waiting for an open connection");
    let detail = e.detail.clone();
    let r = create_todo_handler(Err(e));
    assert_eq!(r.status, 500);
    assert!(matches!(&r.body, Body::Error { .. }));
    assert_eq!(message(&r), detail);
}

#[test]
fn create_then_get_same_fields() {
    let created = create_todo_handler(Ok(todo(7, "read", "a book")));
    assert_eq!(created.status, 201);
    let got = get_todo_handler(7, Ok(todo(7, "read", "a book")));
    assert_eq!(got.status, 200);
    assert_eq!(record(&got).title, record(&created).title);
    assert_eq!(record(&got).content, record(&created).content);
}

#[test]
fn get_missing_echoes_identifier() {
    let r = get_todo_handler(ID, Err(db_error("no rows")));
    assert_eq!(r.status, 404);
    assert_eq!(message(&r), format!("todo with ID: {} not found", ID_TEXT));
}

fn plan(body: UpdatetodoSchema) -> (String, String) {
    match edit_todo_handler(ID, body, Ok(todo(ID, "old title", "old content"))) {
        EditStep::Update { title, content } => (title, content),
        EditStep::Reply(r) => panic!("unexpected reply {:?}", r),
    }
}

#[test]
fn update_title_only_keeps_content() {
    let (t, c) = plan(UpdatetodoSchema { title: Some("new title".to_string()), content: None });
    assert_eq!(t, "new title");
    assert_eq!(c, "old content");
}

#[test]
fn update_content_only_keeps_title() {
    let (t, c) = plan(UpdatetodoSchema { title: None, content: Some("new content".to_string()) });
    assert_eq!(t, "old title");
    assert_eq!(c, "new content");
}

#[test]
fn update_with_nothing_is_no_op() {
    let (t, c) = plan(UpdatetodoSchema { title: None, content: None });
    assert_eq!(t, "old title");
    assert_eq!(c, "old content");
    let r = edit_todo_result(Ok(todo(ID, &t, &c)));
    assert_eq!(r.status, 200);
    assert_eq!(record(&r).title, "old title");
    assert_eq!(record(&r).content, "old content");
}

#[test]
fn update_missing_record_not_found() {
    let body = UpdatetodoSchema { title: Some("x".to_string()), content: None };
    match edit_todo_handler(ID, body, Err(db_error("no rows"))) {
        EditStep::Reply(r) => {
            assert_eq!(r.status, 404);
            assert_eq!(message(&r), format!("todo with ID: {} not found", ID_TEXT));
        }
        EditStep::Update { .. } => panic!("update planned for a missing record"),
    }
}

#[test]
fn update_statement_failure_is_server_error() {
    let e = db_error("duplicate key value violates unique constraint");
    let detail = e.detail.clone();
    let r = edit_todo_result(Err(e));
    assert_eq!(r.status, 500);
    assert_eq!(message(&r), detail);
}

#[test]
fn delete_missing_not_found() {
    let r = delete_todo_handler(ID, Ok(0));
    assert_eq!(r.status, 404);
    assert_eq!(message(&r), format!("todo with ID: {} not found", ID_TEXT));
}

#[test]
fn delete_failure_is_server_error() {
    let e = db_error("connection reset");
    let detail = e.detail.clone();
    let r = delete_todo_handler(ID, Err(e));
    assert_eq!(r.status, 500);
    assert_eq!(message(&r), detail);
}

#[test]
fn list_counts_and_keeps_order() {
    let rows = vec![todo(1, "a", "x"), todo(2, "b", "y"), todo(5, "c", "z")];
    let r = todo_list_handler(&FilterOptions { page: Some(2), limit: Some(1) }, Ok(rows));
    assert_eq!(r.status, 200);
    match r.body {
        Body::TodoList { results, todos } => {
            assert_eq!(results, 3);
            let ids: Vec<u128> = todos.iter().map(|t| t.id).collect();
            assert_eq!(ids, vec![1, 2, 5]);
        }
        other => panic!("unexpected body {:?}", other),
    }
}

#[test]
fn list_empty() {
    let r = todo_list_handler(&FilterOptions::default(), Ok(Vec::new()));
    assert_eq!(r.status, 200);
    match r.body {
        Body::TodoList { results, todos } => {
            assert_eq!(results, 0);
            assert!(todos.is_empty());
        }
        other => panic!("unexpected body {:?}", other),
    }
}

#[test]
fn list_failure() {
    let r = todo_list_handler(&FilterOptions::default(), Err(db_error("boom")));
    assert_eq!(r.status, 500);
    assert!(matches!(&r.body, Body::Fail { .. }));
    assert_eq!(message(&r), "Something bad happened while fetching all todo items");
}
