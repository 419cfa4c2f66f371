//! The stored forms of todos, outbox records and views: the columns a
//! relational store keeps for each, and how values are written to and read
//! back from them. Reading back checks what writing cannot lose; a stored
//! row that no longer validates is refused.

use vstd::prelude::*;
use std::time::SystemTime;
use crate::errors::AppError;
use crate::events::{TodoEvent, completed_name, created_name};
use crate::outbox::{
    EventStatus, TodoEventRecord, opt_view, status_from_str, status_text, status_to_string,
    unknown_status_message,
};
use crate::projection::TodoView;
use crate::text::trimmed;
use crate::todo::{Todo, TodoModel};
use crate::value_objects::{
    TodoId, TodoTitle, empty_id_message, empty_title_message, is_trimmed_nonempty,
};

verus! {

/// The columns of a stored todo.
#[derive(Debug, PartialEq, Eq)]
pub struct TodoRow {
    pub id: String,
    pub title: String,
    pub completed: bool,
    pub version: i64,
}

/// The row a todo is stored as.
pub fn todo_to_row(todo: &Todo) -> (row: TodoRow)
    ensures
        row.id@ == todo@.id,
        row.title@ == todo@.title,
        row.completed == todo@.completed,
        row.version == todo@.version as i64,
        is_trimmed_nonempty(row.id@),
        is_trimmed_nonempty(row.title@),
{
    TodoRow {
        id: todo.id().as_str().to_owned(),
        title: todo.title().as_str().to_owned(),
        completed: todo.is_completed(),
        version: todo.version() as i64,
    }
}

/// The todo a row holds, with no recorded events; an identifier or title
/// that is empty once trimmed is refused with a validation error.
pub fn todo_from_row(row: TodoRow) -> (r: Result<Todo, AppError>)
    ensures
        match r {
            Ok(t) => {
                &&& trimmed(row.id@).len() > 0 && trimmed(row.title@).len() > 0
                &&& t@ == (TodoModel {
                    id: trimmed(row.id@),
                    title: trimmed(row.title@),
                    completed: row.completed,
                    version: row.version as u64,
                    pending: Seq::empty(),
                })
            },
            Err(e) => {
                &&& e is Validation
                &&& trimmed(row.id@).len() == 0 ==> e.message_view() == empty_id_message()
                &&& trimmed(row.id@).len() > 0 ==> trimmed(row.title@).len() == 0 && e.message_view()
                    == empty_title_message()
            },
        },
{
    let id = TodoId::new(row.id.as_str())?;
    let title = TodoTitle::new(row.title.as_str())?;
    Ok(Todo::rehydrate(id, title, row.completed, row.version as u64))
}

/// Writing a todo and reading it back gives the todo, without its recorded
/// events, as long as its version fits the stored column. (Every todo's
/// identifier and title are trimmed and not empty, so they read back as
/// they were written.)
pub proof fn lemma_todo_row_round_trip(m: TodoModel)
    requires
        is_trimmed_nonempty(m.id),
        is_trimmed_nonempty(m.title),
        m.version <= i64::MAX,
    ensures
        trimmed(m.id).len() > 0 && trimmed(m.title).len() > 0,
        (TodoModel {
            id: trimmed(m.id),
            title: trimmed(m.title),
            completed: m.completed,
            version: (m.version as i64) as u64,
            pending: Seq::empty(),
        }) == (TodoModel { pending: Seq::empty(), ..m }),
{
}

/// The columns of a stored outbox record. The time is kept as a point in
/// time here; the store keeps it in milliseconds.
#[derive(Debug, PartialEq, Eq)]
pub struct OutboxRow {
    pub event_id: String,
    pub uow_id: String,
    pub event_order: i64,
    pub aggregate_id: String,
    pub aggregate_version: i64,
    pub event_name: String,
    pub title: Option<String>,
    pub occurred_at: SystemTime,
    pub status: String,
    pub attempt_count: i32,
    pub last_error: Option<String>,
}

/// The title stored with an event: the title of a creation, none for a completion.
pub open spec fn event_title(e: TodoEvent) -> Option<Seq<char>> {
    match e {
        TodoEvent::Created { title, .. } => Some(title@),
        TodoEvent::Completed { .. } => None,
    }
}

/// `row` is what record `r` is stored as.
pub open spec fn written_from(row: OutboxRow, r: TodoEventRecord) -> bool {
    &&& row.event_id == r.event_id
    &&& row.uow_id == r.uow_id
    &&& row.event_order == r.event_order as i64
    &&& row.aggregate_id == r.aggregate_id
    &&& row.aggregate_version == r.aggregate_version as i64
    &&& row.event_name@ == r.payload.name_view()
    &&& opt_view(row.title) == event_title(r.payload)
    &&& row.occurred_at == r.payload.time_view()
    &&& row.status@ == status_text(r.status)
    &&& row.attempt_count == r.attempt_count as i32
    &&& row.last_error == r.last_error
}

/// The row a record is stored as.
pub fn outbox_row(record: &TodoEventRecord) -> (row: OutboxRow)
    ensures
        written_from(row, *record),
        row.event_id == record.event_id,
        row.uow_id == record.uow_id,
        row.event_order == record.event_order as i64,
        row.aggregate_id == record.aggregate_id,
        row.aggregate_version == record.aggregate_version as i64,
        row.attempt_count == record.attempt_count as i32,
        row.last_error == record.last_error,
{
    let (event_name, title, occurred_at) = match &record.payload {
        TodoEvent::Created { title, occurred_at, .. } => (
            String::from_str("todo.created"),
            Some(title.as_str().to_owned()),
            *occurred_at,
        ),
        TodoEvent::Completed { occurred_at, .. } => (String::from_str("todo.completed"), None, *occurred_at),
    };
    OutboxRow {
        event_id: record.event_id.clone(),
        uow_id: record.uow_id.clone(),
        event_order: record.event_order as i64,
        aggregate_id: record.aggregate_id.clone(),
        aggregate_version: record.aggregate_version as i64,
        event_name,
        title,
        occurred_at,
        status: status_to_string(record.status),
        attempt_count: record.attempt_count as i32,
        last_error: match &record.last_error {
            Some(s) => Some(s.clone()),
            None => None,
        },
    }
}

/// The message of the error returned for a stored creation without a title.
pub open spec fn missing_title_message(event_id: Seq<char>) -> Seq<char> {
    "missing title for todo.created event "@ + event_id
}

/// The message of the error returned for a stored event of unknown name.
pub open spec fn unknown_event_message(name: Seq<char>, event_id: Seq<char>) -> Seq<char> {
    "unknown todo event name "@ + name + " for record "@ + event_id
}

/// The stored delivery state names a state.
pub open spec fn names_status(text: Seq<char>) -> bool {
    exists|s: EventStatus| status_text(s) == text
}

/// A stored row can be read back: a known event name, an identifier (and,
/// for a creation, a title) that validates, and a known delivery state.
pub open spec fn outbox_row_readable(
    event_name: Seq<char>,
    aggregate_id: Seq<char>,
    title: Option<Seq<char>>,
    status: Seq<char>,
) -> bool {
    &&& event_name == created_name() || event_name == completed_name()
    &&& trimmed(aggregate_id).len() > 0
    &&& event_name == created_name() ==> title is Some && trimmed(title->0).len() > 0
    &&& names_status(status)
}

/// `rec` is the record read back from `row`.
pub open spec fn read_back(rec: TodoEventRecord, row: OutboxRow) -> bool {
    &&& rec.event_id == row.event_id
    &&& rec.uow_id == row.uow_id
    &&& rec.event_order == row.event_order as u64
    &&& rec.aggregate_id == row.aggregate_id
    &&& rec.aggregate_version == row.aggregate_version as u64
    &&& rec.payload.name_view() == row.event_name@
    &&& rec.payload.todo_id_view() == trimmed(row.aggregate_id@)
    &&& rec.payload.version_view() == row.aggregate_version as u64
    &&& rec.payload.time_view() == row.occurred_at
    &&& (rec.payload is Created ==> row.title is Some && event_title(rec.payload) == Some(
        trimmed(row.title->0@),
    ))
    &&& rec.attempt_count == row.attempt_count as u32
    &&& rec.last_error == row.last_error
    &&& status_text(rec.status) == row.status@
}

/// The record a row holds. A row that cannot be read back is refused: an
/// unknown event name or a creation without a title with a persistence error,
/// an identifier or title that is empty once trimmed with a validation error,
/// and then an unknown delivery state with a persistence error.
pub fn record_from_row(row: OutboxRow) -> (r: Result<TodoEventRecord, AppError>)
    ensures
        r is Ok <==> outbox_row_readable(
            row.event_name@,
            row.aggregate_id@,
            opt_view(row.title),
            row.status@,
        ),
        r matches Ok(rec) ==> read_back(rec, row),
        r matches Ok(rec) ==> rec.event_order == row.event_order as u64 && rec.aggregate_version
            == row.aggregate_version as u64 && rec.payload.version_view() == row.aggregate_version as u64,
        r matches Err(e) ==> {
            if row.event_name@ != created_name() && row.event_name@ != completed_name() {
                e is Persistence && e.message_view() == unknown_event_message(row.event_name@, row.event_id@)
            } else if trimmed(row.aggregate_id@).len() == 0 {
                e is Validation && e.message_view() == empty_id_message()
            } else if row.event_name@ == created_name() && row.title is None {
                e is Persistence && e.message_view() == missing_title_message(row.event_id@)
            } else if row.event_name@ == created_name() && trimmed(row.title->0@).len() == 0 {
                e is Validation && e.message_view() == empty_title_message()
            } else {
                e is Persistence && !names_status(row.status@) && e.message_view()
                    == unknown_status_message(row.status@)
            }
        },
{
    let name = row.event_name.clone();
    let payload = if name == String::from_str("todo.created") {
        let todo_id = TodoId::new(row.aggregate_id.as_str())?;
        let title_text = match &row.title {
            Some(t) => t,
            None => {
                let message = String::from_str("missing title for todo.created event ").concat(
                    row.event_id.as_str(),
                );
                return Err(AppError::Persistence { message });
            },
        };
        let title = TodoTitle::new(title_text.as_str())?;
        TodoEvent::Created {
            todo_id,
            title,
            version: row.aggregate_version as u64,
            occurred_at: row.occurred_at,
        }
    } else if name == String::from_str("todo.completed") {
        let todo_id = TodoId::new(row.aggregate_id.as_str())?;
        TodoEvent::Completed {
            todo_id,
            version: row.aggregate_version as u64,
            occurred_at: row.occurred_at,
        }
    } else {
        let message = String::from_str("unknown todo event name ").concat(name.as_str()).concat(
            " for record ",
        ).concat(row.event_id.as_str());
        proof {
            reveal_strlit("todo.created");
            reveal_strlit("todo.completed");
        }
        return Err(AppError::Persistence { message });
    };
    let status = match status_from_str(row.status.as_str()) {
        Ok(s) => s,
        Err(e) => {
            return Err(e);
        },
    };
    proof {
        reveal_strlit("todo.created");
        reveal_strlit("todo.completed");
    }
    Ok(
        TodoEventRecord {
            event_id: row.event_id,
            uow_id: row.uow_id,
            event_order: row.event_order as u64,
            aggregate_id: row.aggregate_id,
            aggregate_version: row.aggregate_version as u64,
            payload,
            attempt_count: row.attempt_count as u32,
            last_error: row.last_error,
            status,
        },
    )
}

/// The record stands as a record of its own event: the identifier and
/// version columns repeat the event's, and the counters fit the stored columns.
pub open spec fn storable_record(r: TodoEventRecord) -> bool {
    &&& r.aggregate_id@ == r.payload.todo_id_view()
    &&& r.aggregate_version == r.payload.version_view()
    &&& r.event_order <= i64::MAX
    &&& r.aggregate_version <= i64::MAX
    &&& r.attempt_count <= i32::MAX
}

/// Writing a storable record and reading it back gives the record: the row
/// can be read back, and what is read has the record's columns and an event
/// with the same identifier, name, version, title and time.
pub proof fn lemma_outbox_round_trip(r: TodoEventRecord, row: OutboxRow, rec: TodoEventRecord)
    requires
        storable_record(r),
        is_trimmed_nonempty(r.payload.todo_id_view()),
        r.payload is Created ==> is_trimmed_nonempty(event_title(r.payload)->0),
        written_from(row, r),
        read_back(rec, row),
    ensures
        outbox_row_readable(row.event_name@, row.aggregate_id@, opt_view(row.title), row.status@),
        rec.event_id == r.event_id,
        rec.uow_id == r.uow_id,
        rec.event_order == r.event_order,
        rec.aggregate_id == r.aggregate_id,
        rec.aggregate_version == r.aggregate_version,
        rec.payload.name_view() == r.payload.name_view(),
        rec.payload.todo_id_view() == r.payload.todo_id_view(),
        rec.payload.version_view() == r.payload.version_view(),
        rec.payload.time_view() == r.payload.time_view(),
        event_title(rec.payload) == event_title(r.payload),
        rec.attempt_count == r.attempt_count,
        rec.last_error == r.last_error,
        rec.status == r.status,
{
    reveal_strlit("todo.created");
    reveal_strlit("todo.completed");
    crate::outbox::lemma_status_text_round_trip(rec.status, r.status);
    assert(names_status(row.status@));
    assert(created_name()[6] != completed_name()[6]);
    assert(created_name() != completed_name());
    assert(trimmed(row.aggregate_id@) == row.aggregate_id@);
    match r.payload {
        TodoEvent::Created { title, .. } => {
            assert(row.title is Some);
            assert(row.title->0@ == title@);
            assert(trimmed(row.title->0@) == row.title->0@);
        },
        TodoEvent::Completed { .. } => {},
    }
    if rec.payload is Created {
        assert(r.payload is Created);
    } else {
        assert(!(r.payload is Created));
    }
}

/// The columns of a stored view.
#[derive(Debug, PartialEq, Eq)]
pub struct ProjectionRow {
    pub id: String,
    pub title: String,
    pub completed: bool,
    pub version: i64,
}

/// The row a view is stored as.
pub fn projection_row(view: &TodoView) -> (row: ProjectionRow)
    ensures
        row.id == view.id,
        row.title == view.title,
        row.completed == view.completed,
        row.version == view.version as i64,
{
    ProjectionRow {
        id: view.id.clone(),
        title: view.title.clone(),
        completed: view.completed,
        version: view.version as i64,
    }
}

/// The view a row holds.
pub fn view_from_projection_row(row: ProjectionRow) -> (view: TodoView)
    ensures
        view.id == row.id,
        view.title == row.title,
        view.completed == row.completed,
        view.version == row.version as u64,
{
    TodoView { id: row.id, title: row.title, completed: row.completed, version: row.version as u64 }
}

/// Writing a view and reading it back gives the view, as long as its version fits the stored column.
pub proof fn lemma_projection_row_round_trip(version: u64)
    requires
        version <= i64::MAX,
    ensures
        (version as i64) as u64 == version,
{
}

} // verus!
