//! The domain events of a todo.

use vstd::prelude::*;
use std::time::SystemTime;
use crate::model::DomainEvent;
use crate::value_objects::{TodoId, TodoTitle};

verus! {

/// Something that happened to a todo, with the version the todo had after it.
#[derive(Debug, PartialEq, Eq)]
pub enum TodoEvent {
    Created { todo_id: TodoId, title: TodoTitle, version: u64, occurred_at: SystemTime },
    Completed { todo_id: TodoId, version: u64, occurred_at: SystemTime },
}

/// The name of the event that records a creation.
pub open spec fn created_name() -> Seq<char> {
    "todo.created"@
}

/// The name of the event that records a completion.
pub open spec fn completed_name() -> Seq<char> {
    "todo.completed"@
}

impl TodoEvent {
    /// The identifier of the todo the event happened to.
    pub open spec fn todo_id_view(&self) -> Seq<char> {
        match self {
            TodoEvent::Created { todo_id, .. } => todo_id@,
            TodoEvent::Completed { todo_id, .. } => todo_id@,
        }
    }

    /// The version of the todo after the event.
    pub open spec fn version_view(&self) -> u64 {
        match self {
            TodoEvent::Created { version, .. } => *version,
            TodoEvent::Completed { version, .. } => *version,
        }
    }

    /// The name of the kind of event.
    pub open spec fn name_view(&self) -> Seq<char> {
        match self {
            TodoEvent::Created { .. } => created_name(),
            TodoEvent::Completed { .. } => completed_name(),
        }
    }

    /// When the event happened.
    pub open spec fn time_view(&self) -> SystemTime {
        match self {
            TodoEvent::Created { occurred_at, .. } => *occurred_at,
            TodoEvent::Completed { occurred_at, .. } => *occurred_at,
        }
    }

    /// The version of the todo after the event.
    pub fn version(&self) -> (v: u64)
        ensures
            v == self.version_view(),
    {
        match self {
            TodoEvent::Created { version, .. } => *version,
            TodoEvent::Completed { version, .. } => *version,
        }
    }

    /// The identifier of the todo the event happened to.
    pub fn todo_id(&self) -> (id: &TodoId)
        ensures
            id@ == self.todo_id_view(),
    {
        match self {
            TodoEvent::Created { todo_id, .. } => todo_id,
            TodoEvent::Completed { todo_id, .. } => todo_id,
        }
    }
}

impl Clone for TodoEvent {
    fn clone(&self) -> (r: Self)
        ensures
            r == *self,
    {
        match self {
            TodoEvent::Created { todo_id, title, version, occurred_at } => TodoEvent::Created {
                todo_id: todo_id.clone(),
                title: title.clone(),
                version: *version,
                occurred_at: *occurred_at,
            },
            TodoEvent::Completed { todo_id, version, occurred_at } => TodoEvent::Completed {
                todo_id: todo_id.clone(),
                version: *version,
                occurred_at: *occurred_at,
            },
        }
    }
}

impl DomainEvent for TodoEvent {
    fn event_name(&self) -> (name: &'static str)
        ensures
            name@ == self.name_view(),
    {
        match self {
            TodoEvent::Created { .. } => "todo.created",
            TodoEvent::Completed { .. } => "todo.completed",
        }
    }

    fn entity_id(&self) -> (id: String)
        ensures
            id@ == self.todo_id_view(),
    {
        self.todo_id().as_str().to_owned()
    }

    fn occurred_at(&self) -> (t: SystemTime)
        ensures
            t == self.time_view(),
    {
        match self {
            TodoEvent::Created { occurred_at, .. } => *occurred_at,
            TodoEvent::Completed { occurred_at, .. } => *occurred_at,
        }
    }
}

} // verus!
