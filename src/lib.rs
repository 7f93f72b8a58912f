//! Request handling for a small CRUD service over todo items.
//!
//! Each handler is split into the decisions it makes, which live here and are
//! verified, and the storage round trips, which the caller performs and whose
//! outcomes it hands in.
pub mod handler;
pub mod model;
pub mod response;
pub mod schema;
pub mod table;
pub mod text;

pub use handler::{
    create_todo_handler, delete_todo_handler, edit_todo_handler, edit_todo_result,
    get_todo_handler, is_unique_violation, not_found_message, todo_list_handler, DbError,
    EditStep,
};
pub use model::ToDo;
pub use response::{ApiResponse, Body};
pub use schema::{CreatetodoSchema, FilterOptions, ParamOptions, UpdatetodoSchema};
pub use text::contains_text;
pub use table::{
    create_then_get, delete_then_get, duplicate_title_conflicts, get_missing_not_found,
    list_in_order, partial_update,
};
