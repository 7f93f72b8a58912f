use vstd::prelude::*;
use crate::model::{ToDo, TodoView};

verus! {

pub const OK: u16 = 200;
pub const CREATED: u16 = 201;
pub const NO_CONTENT: u16 = 204;
pub const NOT_FOUND: u16 = 404;
pub const CONFLICT: u16 = 409;
pub const INTERNAL_SERVER_ERROR: u16 = 500;

/// The envelope sent back for a request.
#[derive(Debug)]
pub enum Body {
    /// `{status: "success", results, todos}`
    TodoList { results: usize, todos: Vec<ToDo> },
    /// `{status: "success", data: {todo}}`
    Todo { todo: ToDo },
    /// `{status: "fail", message}`
    Fail { message: String },
    /// `{status: "error", message}`
    Error { message: String },
    /// No body at all.
    Empty,
}

/// An HTTP status code together with its envelope.
#[derive(Debug)]
pub struct ApiResponse {
    pub status: u16,
    pub body: Body,
}

pub enum BodyView {
    TodoList { results: nat, todos: Seq<TodoView> },
    Todo { todo: TodoView },
    Fail { message: Seq<char> },
    Error { message: Seq<char> },
    Empty,
}

pub struct ResponseView {
    pub status: u16,
    pub body: BodyView,
}

/// The values of a sequence of records.
pub open spec fn todos_view(v: Seq<ToDo>) -> Seq<TodoView> {
    v.map_values(|t: ToDo| t@)
}

impl View for Body {
    type V = BodyView;

    open spec fn view(&self) -> BodyView {
        match self {
            Body::TodoList { results, todos } => BodyView::TodoList {
                results: *results as nat,
                todos: todos_view(todos@),
            },
            Body::Todo { todo } => BodyView::Todo { todo: todo@ },
            Body::Fail { message } => BodyView::Fail { message: message@ },
            Body::Error { message } => BodyView::Error { message: message@ },
            Body::Empty => BodyView::Empty,
        }
    }
}

impl View for ApiResponse {
    type V = ResponseView;

    open spec fn view(&self) -> ResponseView {
        ResponseView { status: self.status, body: self.body@ }
    }
}

} // verus!
