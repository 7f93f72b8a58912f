//! A model of the storage layer: the table as a map from identifier to
//! record, what each statement returns on it, and the laws that follow for
//! the handlers.
use vstd::prelude::*;
use crate::handler::{
    create_response, delete_response, edit_plan, edit_response, fail, found, get_response,
    list_response, merged, not_found_text, title_taken_text, unique_violation_marker, DbError,
    EditPlan,
};
use crate::model::TodoView;
use crate::response::{BodyView, ResponseView, CONFLICT, CREATED, NOT_FOUND, NO_CONTENT, OK};
use crate::schema::CreatetodoSchema;
use crate::text::{has_substring, occurs_at, uuid_text};

verus! {

/// Some stored record holds `title`.
pub open spec fn title_taken(t: Map<u128, TodoView>, title: Seq<char>) -> bool {
    exists|k: u128| t.contains_key(k) && t[k].title == title
}

/// What a select by identifier returns: the record, or the error `miss`.
pub open spec fn select_one(t: Map<u128, TodoView>, id: u128, miss: DbError) -> Result<TodoView, DbError> {
    if t.contains_key(id) {
        Ok(t[id])
    } else {
        Err(miss)
    }
}

/// `row` is what a successful insert of `title` and `content` returns: a
/// fresh identifier and the given fields.
pub open spec fn inserted(t: Map<u128, TodoView>, title: Seq<char>, content: Seq<char>, row: TodoView) -> bool {
    !t.contains_key(row.id) && row.title == title && row.content == content
}

/// The table after an update of the record `id` with `title` and `content`.
pub open spec fn update_row(t: Map<u128, TodoView>, id: u128, title: Seq<char>, content: Seq<char>) -> Map<u128, TodoView> {
    t.insert(id, TodoView { title, content, ..t[id] })
}

/// How many rows a delete of `id` removes.
pub open spec fn removed_count(t: Map<u128, TodoView>, id: u128) -> u64 {
    if t.contains_key(id) {
        1
    } else {
        0
    }
}

/// `s` holds the records of `t`, each once, in ascending identifier order.
pub open spec fn is_listing(t: Map<u128, TodoView>, s: Seq<TodoView>) -> bool {
    &&& forall|i: int, j: int| 0 <= i < j < s.len() ==> s[i].id < s[j].id
    &&& forall|i: int| 0 <= i < s.len() ==> t.contains_key(s[i].id) && t[s[i].id] == s[i]
    &&& forall|k: u128| t.contains_key(k) ==> exists|i: int| 0 <= i < s.len() && s[i].id == k
}

/// Creating a record with a title not yet taken answers 201 with the new
/// record, and a later get of the returned identifier finds it with the
/// same title and content.
pub proof fn create_then_get(t: Map<u128, TodoView>, body: CreatetodoSchema, row: TodoView, miss: DbError)
    requires
        !title_taken(t, body.title@),
        inserted(t, body.title@, body.content@, row),
    ensures
        create_response(Ok(row)) == found(CREATED, row),
        get_response(row.id, select_one(t.insert(row.id, row), row.id, miss)) == found(OK, row),
        row.title == body.title@,
        row.content == body.content@,
{
}

/// Creating a record whose title is taken, which the storage layer refuses
/// with a unique-constraint error, answers 409; the failed insert leaves the
/// table as it was, so every stored record, the one holding the title
/// included, is still found unchanged.
pub proof fn duplicate_title_conflicts(t: Map<u128, TodoView>, body: CreatetodoSchema, e: DbError, miss: DbError)
    requires
        title_taken(t, body.title@),
        has_substring(e.text@, unique_violation_marker()),
    ensures
        create_response(Err(e)) == fail(CONFLICT, title_taken_text()),
        forall|k: u128| #[trigger] t.contains_key(k) ==> get_response(k, select_one(t, k, miss)) == found(OK, t[k]),
{
}

/// A get of an identifier that no record has answers 404, and its message
/// holds the identifier's text.
pub proof fn get_missing_not_found(t: Map<u128, TodoView>, id: u128, miss: DbError)
    requires
        !t.contains_key(id),
    ensures
        get_response(id, select_one(t, id, miss)) == fail(NOT_FOUND, not_found_text(id)),
        has_substring(not_found_text(id), uuid_text(id)),
{
    let p = "todo with ID: "@;
    let m = not_found_text(id);
    assert(m.subrange(p.len() as int, (p.len() + uuid_text(id).len()) as int) =~= uuid_text(id));
    assert(occurs_at(m, uuid_text(id), p.len() as int));
}

/// An update writes each given field and keeps each absent one; with no
/// field given it rewrites the stored values, leaves the table as it was, and
/// answers with the unchanged record.
pub proof fn partial_update(
    t: Map<u128, TodoView>,
    id: u128,
    title: Option<Seq<char>>,
    content: Option<Seq<char>>,
)
    requires
        t.contains_key(id),
    ensures
        edit_plan(id, title, content, Ok(t[id])) == (EditPlan::Update {
            title: merged(title, t[id].title),
            content: merged(content, t[id].content),
        }),
        content is None ==> merged(content, t[id].content) == t[id].content,
        title is None ==> merged(title, t[id].title) == t[id].title,
        title is None && content is None ==> update_row(t, id, t[id].title, t[id].content) == t,
        title is None && content is None ==> edit_response(
            Ok(update_row(t, id, t[id].title, t[id].content)[id]),
        ) == found(OK, t[id]),
{
    assert(update_row(t, id, t[id].title, t[id].content) =~= t);
}

/// A delete of a stored record answers 204, and a later get of its
/// identifier answers 404.
pub proof fn delete_then_get(t: Map<u128, TodoView>, id: u128, miss: DbError)
    requires
        t.contains_key(id),
    ensures
        delete_response(id, Ok(removed_count(t, id))) == (ResponseView { status: NO_CONTENT, body: BodyView::Empty }),
        get_response(id, select_one(t.remove(id), id, miss)) == fail(NOT_FOUND, not_found_text(id)),
{
}

/// A list answers 200 with the records in ascending identifier order and a
/// count equal to their number.
pub proof fn list_in_order(t: Map<u128, TodoView>, s: Seq<TodoView>)
    requires
        is_listing(t, s),
    ensures
        list_response(Ok(s)) == (ResponseView { status: OK, body: BodyView::TodoList { results: s.len(), todos: s } }),
        forall|i: int, j: int| 0 <= i < j < s.len() ==> s[i].id < s[j].id,
{
}

} // verus!
