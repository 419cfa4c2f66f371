//! The decisions of the todo service between its reads and writes: a todo
//! may be created only when none has its identifier, completed only when it
//! exists, and read only when its view exists.

use vstd::prelude::*;
use crate::errors::AppError;
use crate::model::Builder;
use crate::projection::TodoView;
use crate::todo::{CreateTodo, Todo, TodoBuilder, already_completed_message, build_outcome_ok};
use crate::value_objects::TodoId;

verus! {

/// The message of the conflict returned for a todo that already exists.
pub open spec fn already_exists_message(id: Seq<char>) -> Seq<char> {
    "todo "@ + id + " already exists"@
}

/// The message of the error returned for a todo that does not exist.
pub open spec fn does_not_exist_message(id: Seq<char>) -> Seq<char> {
    "todo "@ + id + " does not exist"@
}

fn conflict_exists(id: &TodoId) -> (e: AppError)
    ensures
        e is Conflict,
        e.message_view() == already_exists_message(id@),
{
    AppError::Conflict { message: String::from_str("todo ").concat(id.as_str()).concat(" already exists") }
}

fn not_found(id: &TodoId) -> (e: AppError)
    ensures
        e is NotFound,
        e.message_view() == does_not_exist_message(id@),
{
    AppError::NotFound { message: String::from_str("todo ").concat(id.as_str()).concat(" does not exist") }
}

/// A todo may be created under `id` only when the repository found none there.
pub fn check_absent(id: &TodoId, existing: Option<&Todo>) -> (r: Result<(), AppError>)
    ensures
        match r {
            Ok(()) => existing is None,
            Err(e) => existing is Some && e is Conflict && e.message_view() == already_exists_message(id@),
        },
{
    match existing {
        Some(_) => Err(conflict_exists(id)),
        None => Ok(()),
    }
}

/// The todo the repository found under `id`, or a not-found error.
pub fn loaded_or_not_found(id: &TodoId, found: Option<Todo>) -> (r: Result<Todo, AppError>)
    ensures
        match r {
            Ok(t) => found == Some(t),
            Err(e) => found is None && e is NotFound && e.message_view() == does_not_exist_message(id@),
        },
{
    match found {
        Some(t) => Ok(t),
        None => Err(not_found(id)),
    }
}

/// The view the read model holds for `id`, or a not-found error.
pub fn view_or_not_found(id: &TodoId, found: Option<TodoView>) -> (r: Result<TodoView, AppError>)
    ensures
        match r {
            Ok(v) => found == Some(v),
            Err(e) => found is None && e is NotFound && e.message_view() == does_not_exist_message(id@),
        },
{
    match found {
        Some(v) => Ok(v),
        None => Err(not_found(id)),
    }
}

/// Builds the todo a creation command asks for, with its view.
pub fn build_with_view(builder: &TodoBuilder, cmd: CreateTodo) -> (r: Result<(Todo, TodoView), AppError>)
    ensures
        match r {
            Ok((t, v)) => {
                &&& crate::text::trimmed(cmd.id@).len() > 0
                &&& crate::text::trimmed(cmd.title@).len() > 0
                &&& build_outcome_ok(cmd, t)
                &&& v.id@ == t@.id && v.title@ == t@.title && !v.completed && v.version == 1
            },
            Err(e) => {
                &&& e is Validation
                &&& crate::text::trimmed(cmd.id@).len() == 0 ==> e.message_view()
                    == crate::value_objects::empty_id_message()
                &&& crate::text::trimmed(cmd.id@).len() > 0 ==> crate::text::trimmed(cmd.title@).len()
                    == 0 && e.message_view() == crate::value_objects::empty_title_message()
            },
        },
{
    let todo = builder.build(cmd)?;
    let view = TodoView::from_todo(&todo);
    Ok((todo, view))
}

/// Completes a loaded todo and gives its view after the completion; a todo
/// already completed is refused with a conflict and left as it was.
pub fn complete_with_view(todo: &mut Todo) -> (r: Result<TodoView, AppError>)
    requires
        !old(todo)@.completed ==> old(todo)@.version < u64::MAX,
    ensures
        match r {
            Ok(v) => {
                &&& !old(todo)@.completed
                &&& final(todo)@.completed
                &&& final(todo)@.version == old(todo)@.version + 1
                &&& v.id@ == old(todo)@.id && v.title@ == old(todo)@.title && v.completed
                &&& v.version == final(todo)@.version
            },
            Err(e) => {
                &&& old(todo)@.completed
                &&& final(todo)@ == old(todo)@
                &&& e is Conflict
                &&& e.message_view() == already_completed_message(old(todo)@.id)
            },
        },
{
    todo.complete()?;
    Ok(TodoView::from_todo(todo))
}

} // verus!
