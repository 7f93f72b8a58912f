use vstd::prelude::*;
use crate::model::{ToDo, TodoView};
use crate::response::{
    todos_view, ApiResponse, Body, BodyView, ResponseView, CONFLICT, CREATED,
    INTERNAL_SERVER_ERROR, NOT_FOUND, NO_CONTENT, OK,
};
use crate::schema::{FilterOptions, UpdatetodoSchema};
use crate::text::{contains_text, has_substring, uuid_text, uuid_to_text};

verus! {

/// A failed storage statement: the error's display text, which is inspected,
/// and its debug text, which is reported back as is.
#[derive(Debug)]
pub struct DbError {
    pub text: String,
    pub detail: String,
}

/// What the storage layer says on a duplicate value in a unique column.
pub open spec fn unique_violation_marker() -> Seq<char> {
    "duplicate key value violates unique constraint"@
}

pub open spec fn not_found_text(id: u128) -> Seq<char> {
    "todo with ID: "@ + uuid_text(id) + " not found"@
}

pub open spec fn title_taken_text() -> Seq<char> {
    "todo with that title already exists"@
}

pub open spec fn list_failed_text() -> Seq<char> {
    "Something bad happened while fetching all todo items"@
}

pub open spec fn row_view(o: Result<ToDo, DbError>) -> Result<TodoView, DbError> {
    match o {
        Ok(t) => Ok(t@),
        Err(e) => Err(e),
    }
}

pub open spec fn rows_view(o: Result<Vec<ToDo>, DbError>) -> Result<Seq<TodoView>, DbError> {
    match o {
        Ok(v) => Ok(todos_view(v@)),
        Err(e) => Err(e),
    }
}

pub open spec fn fail(status: u16, message: Seq<char>) -> ResponseView {
    ResponseView { status, body: BodyView::Fail { message } }
}

pub open spec fn server_error(e: DbError) -> ResponseView {
    ResponseView { status: INTERNAL_SERVER_ERROR, body: BodyView::Error { message: e.detail@ } }
}

pub open spec fn found(status: u16, todo: TodoView) -> ResponseView {
    ResponseView { status, body: BodyView::Todo { todo } }
}

/// The answer to a list request, given what the ordered select returned.
pub open spec fn list_response(rows: Result<Seq<TodoView>, DbError>) -> ResponseView {
    match rows {
        Ok(s) => ResponseView { status: OK, body: BodyView::TodoList { results: s.len(), todos: s } },
        Err(_) => fail(INTERNAL_SERVER_ERROR, list_failed_text()),
    }
}

/// The answer to a create request, given what the insert returned.
pub open spec fn create_response(inserted: Result<TodoView, DbError>) -> ResponseView {
    match inserted {
        Ok(t) => found(CREATED, t),
        Err(e) => if has_substring(e.text@, unique_violation_marker()) {
            fail(CONFLICT, title_taken_text())
        } else {
            server_error(e)
        },
    }
}

/// The answer to a get request, given what the select by identifier returned.
pub open spec fn get_response(id: u128, fetched: Result<TodoView, DbError>) -> ResponseView {
    match fetched {
        Ok(t) => found(OK, t),
        Err(_) => fail(NOT_FOUND, not_found_text(id)),
    }
}

/// A field of a partial update: the new value if given, else the stored one.
pub open spec fn merged(given: Option<Seq<char>>, stored: Seq<char>) -> Seq<char> {
    match given {
        Some(v) => v,
        None => stored,
    }
}

/// The first step of an update: the values to write, or the answer.
pub enum EditStep {
    Update { title: String, content: String },
    Reply(ApiResponse),
}

pub enum EditPlan {
    Update { title: Seq<char>, content: Seq<char> },
    Reply(ResponseView),
}

impl View for EditStep {
    type V = EditPlan;

    open spec fn view(&self) -> EditPlan {
        match self {
            EditStep::Update { title, content } => EditPlan::Update {
                title: title@,
                content: content@,
            },
            EditStep::Reply(r) => EditPlan::Reply(r@),
        }
    }
}

/// What an update does once the stored record was looked up.
pub open spec fn edit_plan(
    id: u128,
    title: Option<Seq<char>>,
    content: Option<Seq<char>>,
    fetched: Result<TodoView, DbError>,
) -> EditPlan {
    match fetched {
        Ok(t) => EditPlan::Update { title: merged(title, t.title), content: merged(content, t.content) },
        Err(_) => EditPlan::Reply(fail(NOT_FOUND, not_found_text(id))),
    }
}

/// The answer to an update request, given what the update statement returned.
pub open spec fn edit_response(updated: Result<TodoView, DbError>) -> ResponseView {
    match updated {
        Ok(t) => found(OK, t),
        Err(e) => server_error(e),
    }
}

/// The answer to a delete request, given the number of rows it removed.
pub open spec fn delete_response(id: u128, removed: Result<u64, DbError>) -> ResponseView {
    match removed {
        Ok(n) => if n == 0 {
            fail(NOT_FOUND, not_found_text(id))
        } else {
            ResponseView { status: NO_CONTENT, body: BodyView::Empty }
        },
        Err(e) => server_error(e),
    }
}

/// The message naming an identifier that matches no record.
pub fn not_found_message(id: u128) -> (r: String)
    ensures
        r@ == not_found_text(id),
{
    let mut m = String::from_str("todo with ID: ");
    let t = uuid_to_text(id);
    m.append(t.as_str());
    m.append(" not found");
    m
}

/// Whether a storage error reports a duplicate value in a unique column.
pub fn is_unique_violation(e: &DbError) -> (r: bool)
    ensures
        r == has_substring(e.text@, unique_violation_marker()),
{
    contains_text(e.text.as_str(), "duplicate key value violates unique constraint")
}

/// Answers a list request. The filter options are accepted and ignored.
pub fn todo_list_handler(opts: &FilterOptions, rows: Result<Vec<ToDo>, DbError>) -> (r: ApiResponse)
    ensures
        r@ == list_response(rows_view(rows)),
{
    match rows {
        Ok(todos) => {
            let results = todos.len();
            ApiResponse { status: OK, body: Body::TodoList { results, todos } }
        },
        Err(_) => ApiResponse {
            status: INTERNAL_SERVER_ERROR,
            body: Body::Fail {
                message: String::from_str("Something bad happened while fetching all todo items"),
            },
        },
    }
}

/// Answers a create request.
pub fn create_todo_handler(inserted: Result<ToDo, DbError>) -> (r: ApiResponse)
    ensures
        r@ == create_response(row_view(inserted)),
{
    match inserted {
        Ok(todo) => ApiResponse { status: CREATED, body: Body::Todo { todo } },
        Err(e) => {
            if is_unique_violation(&e) {
                ApiResponse {
                    status: CONFLICT,
                    body: Body::Fail {
                        message: String::from_str("todo with that title already exists"),
                    },
                }
            } else {
                ApiResponse { status: INTERNAL_SERVER_ERROR, body: Body::Error { message: e.detail } }
            }
        },
    }
}

/// Answers a get request. Any failure of the lookup counts as a miss.
pub fn get_todo_handler(id: u128, fetched: Result<ToDo, DbError>) -> (r: ApiResponse)
    ensures
        r@ == get_response(id, row_view(fetched)),
{
    match fetched {
        Ok(todo) => ApiResponse { status: OK, body: Body::Todo { todo } },
        Err(_) => ApiResponse {
            status: NOT_FOUND,
            body: Body::Fail { message: not_found_message(id) },
        },
    }
}

/// First step of an update: merges the request into the stored record, or
/// answers not-found when the lookup failed.
pub fn edit_todo_handler(id: u128, body: UpdatetodoSchema, fetched: Result<ToDo, DbError>) -> (r: EditStep)
    ensures
        r@ == edit_plan(id, body.title_view(), body.content_view(), row_view(fetched)),
{
    match fetched {
        Ok(todo) => {
            let title = match body.title {
                Some(t) => t,
                None => todo.title,
            };
            let content = match body.content {
                Some(c) => c,
                None => todo.content,
            };
            EditStep::Update { title, content }
        },
        Err(_) => EditStep::Reply(
            ApiResponse { status: NOT_FOUND, body: Body::Fail { message: not_found_message(id) } },
        ),
    }
}

/// Second step of an update: answers with the record the update returned.
pub fn edit_todo_result(updated: Result<ToDo, DbError>) -> (r: ApiResponse)
    ensures
        r@ == edit_response(row_view(updated)),
{
    match updated {
        Ok(todo) => ApiResponse { status: OK, body: Body::Todo { todo } },
        Err(e) => ApiResponse { status: INTERNAL_SERVER_ERROR, body: Body::Error { message: e.detail } },
    }
}

/// Answers a delete request, given how many rows the delete removed.
pub fn delete_todo_handler(id: u128, removed: Result<u64, DbError>) -> (r: ApiResponse)
    ensures
        r@ == delete_response(id, removed),
{
    match removed {
        Ok(n) => if n == 0 {
            ApiResponse { status: NOT_FOUND, body: Body::Fail { message: not_found_message(id) } }
        } else {
            ApiResponse { status: NO_CONTENT, body: Body::Empty }
        },
        Err(e) => ApiResponse { status: INTERNAL_SERVER_ERROR, body: Body::Error { message: e.detail } },
    }
}

} // verus!
