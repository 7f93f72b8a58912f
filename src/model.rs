use vstd::prelude::*;

verus! {

/// A stored todo item. Timestamps are microseconds since the Unix epoch.
#[derive(Debug)]
pub struct ToDo {
    pub id: u128,
    pub title: String,
    pub content: String,
    pub completed: bool,
    pub created_at: i64,
    pub updated_at: i64,
}

/// The mathematical value of a [`ToDo`].
pub struct TodoView {
    pub id: u128,
    pub title: Seq<char>,
    pub content: Seq<char>,
    pub completed: bool,
    pub created_at: i64,
    pub updated_at: i64,
}

impl View for ToDo {
    type V = TodoView;

    open spec fn view(&self) -> TodoView {
        TodoView {
            id: self.id,
            title: self.title@,
            content: self.content@,
            completed: self.completed,
            created_at: self.created_at,
            updated_at: self.updated_at,
        }
    }
}

} // verus!
