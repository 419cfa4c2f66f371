//! The todo aggregate: a titled task that can be completed once, which
//! records a domain event for each change until the events are pulled.

use vstd::prelude::*;
use crate::clock::now;
use crate::errors::AppError;
use crate::events::TodoEvent;
use crate::model::{AggregateRoot, Builder, Entity, RecordsDomainEvents};
use crate::value_objects::{TodoId, TodoTitle};

verus! {

/// What a todo holds, as mathematical values.
pub struct TodoModel {
    pub id: Seq<char>,
    pub title: Seq<char>,
    pub completed: bool,
    pub version: u64,
    pub pending: Seq<TodoEvent>,
}

/// `e` records the creation of todo `id` with title `title` at version `version`.
pub open spec fn is_created_event(e: TodoEvent, id: Seq<char>, title: Seq<char>, version: u64) -> bool {
    match e {
        TodoEvent::Created { todo_id, title: t, version: v, .. } => todo_id@ == id && t@ == title
            && v == version,
        TodoEvent::Completed { .. } => false,
    }
}

/// `e` records the completion of todo `id`, after which it was at version `version`.
pub open spec fn is_completed_event(e: TodoEvent, id: Seq<char>, version: u64) -> bool {
    match e {
        TodoEvent::Completed { todo_id, version: v, .. } => todo_id@ == id && v == version,
        TodoEvent::Created { .. } => false,
    }
}

/// The recorded events all belong to the todo, and their versions count up
/// one by one to the todo's current version.
pub open spec fn events_consistent(m: TodoModel) -> bool {
    &&& m.pending.len() <= m.version
    &&& forall|k: int| 0 <= k < m.pending.len() ==> (#[trigger] m.pending[k]).todo_id_view() == m.id
    &&& forall|k: int| 0 <= k < m.pending.len() ==> (#[trigger] m.pending[k]).version_view() == m.version
        - (m.pending.len() - 1 - k)
}

/// The message of the error returned when a completed todo is completed again.
pub open spec fn already_completed_message(id: Seq<char>) -> Seq<char> {
    "todo "@ + id + " is already completed"@
}

/// `after` and `r` are what completing a todo in state `before` leads to:
/// an open todo becomes completed at the next version with one more event,
/// a completed todo is refused with a conflict and left as it was.
pub open spec fn completed_from(before: TodoModel, after: TodoModel, r: Result<(), AppError>) -> bool {
    match r {
        Ok(()) => {
            &&& !before.completed
            &&& after.id == before.id
            &&& after.title == before.title
            &&& after.completed
            &&& after.version == before.version + 1
            &&& after.pending.len() == before.pending.len() + 1
            &&& after.pending.subrange(0, before.pending.len() as int) == before.pending
            &&& is_completed_event(after.pending.last(), before.id, after.version)
        },
        Err(e) => {
            &&& before.completed
            &&& after == before
            &&& e is Conflict
            &&& e.message_view() == already_completed_message(before.id)
        },
    }
}

/// `after` is a todo in state `before` once its recorded events were pulled.
pub open spec fn pulled_from(before: TodoModel, after: TodoModel) -> bool {
    after == (TodoModel { pending: Seq::empty(), ..before })
}

/// A todo.
#[derive(Debug, PartialEq, Eq)]
pub struct Todo {
    id: TodoId,
    title: TodoTitle,
    completed: bool,
    version: u64,
    pending_events: Vec<TodoEvent>,
}

impl View for Todo {
    type V = TodoModel;

    closed spec fn view(&self) -> TodoModel {
        TodoModel {
            id: self.id@,
            title: self.title@,
            completed: self.completed,
            version: self.version,
            pending: self.pending_events@,
        }
    }
}

impl Todo {
    /// A new, open todo at version 1 that has recorded its creation.
    pub fn new(id: TodoId, title: TodoTitle) -> (t: Self)
        ensures
            t@.id == id@,
            t@.title == title@,
            !t@.completed,
            t@.version == 1,
            t@.pending.len() == 1,
            is_created_event(t@.pending[0], id@, title@, 1),
            events_consistent(t@),
    {
        let created_event = TodoEvent::Created {
            todo_id: id.clone(),
            title: title.clone(),
            version: 1,
            occurred_at: now(),
        };
        let mut pending_events = Vec::new();
        pending_events.push(created_event);
        Todo { id, title, completed: false, version: 1, pending_events }
    }

    /// A todo as it was stored, with no recorded events.
    pub fn rehydrate(id: TodoId, title: TodoTitle, completed: bool, version: u64) -> (t: Self)
        ensures
            t@ == (TodoModel { id: id@, title: title@, completed, version, pending: Seq::empty() }),
            events_consistent(t@),
    {
        Todo { id, title, completed, version, pending_events: Vec::new() }
    }

    /// Completes the todo: the version goes up by one and the completion is
    /// recorded. A todo that is already completed is refused with a conflict
    /// and left as it was.
    pub fn complete(&mut self) -> (r: Result<(), AppError>)
        requires
            !old(self)@.completed ==> old(self)@.version < u64::MAX,
        ensures
            completed_from(old(self)@, final(self)@, r),
            events_consistent(old(self)@) ==> events_consistent(final(self)@),
    {
        if self.completed {
            let message = String::from_str("todo ").concat(self.id.as_str()).concat(
                " is already completed",
            );
            return Err(AppError::Conflict { message });
        }
        self.completed = true;
        self.version = self.version + 1;
        let event = TodoEvent::Completed {
            todo_id: self.id.clone(),
            version: self.version,
            occurred_at: now(),
        };
        self.pending_events.push(event);
        proof {
            assert(self.pending_events@.subrange(0, old(self)@.pending.len() as int)
                =~= old(self)@.pending);
        }
        Ok(())
    }

    /// The identifier.
    pub fn id(&self) -> (id: &TodoId)
        ensures
            id@ == self@.id,
    {
        &self.id
    }

    /// The title.
    pub fn title(&self) -> (title: &TodoTitle)
        ensures
            title@ == self@.title,
    {
        &self.title
    }

    /// Whether the todo is completed.
    pub fn is_completed(&self) -> (b: bool)
        ensures
            b == self@.completed,
    {
        self.completed
    }

    /// The version, which counts the changes made to the todo.
    pub fn version(&self) -> (v: u64)
        ensures
            v == self@.version,
    {
        self.version
    }

    /// How many events are recorded and not yet pulled.
    pub fn pending_event_count(&self) -> (n: usize)
        ensures
            n == self@.pending.len(),
    {
        self.pending_events.len()
    }

    /// Hands out the recorded events, oldest first, and forgets them.
    pub fn pull_events(&mut self) -> (events: Vec<TodoEvent>)
        ensures
            events@ == old(self)@.pending,
            pulled_from(old(self)@, final(self)@),
            events_consistent(final(self)@),
    {
        let mut events = Vec::new();
        std::mem::swap(&mut events, &mut self.pending_events);
        events
    }
}

impl Clone for Todo {
    fn clone(&self) -> (r: Self)
        ensures
            r@ == self@,
    {
        let mut pending_events: Vec<TodoEvent> = Vec::new();
        let mut i: usize = 0;
        while i < self.pending_events.len()
            invariant
                i <= self.pending_events.len(),
                pending_events@ == self.pending_events@.subrange(0, i as int),
            decreases self.pending_events.len() - i,
        {
            pending_events.push(self.pending_events[i].clone());
            i = i + 1;
            proof {
                assert(pending_events@ =~= self.pending_events@.subrange(0, i as int));
            }
        }
        proof {
            assert(pending_events@ =~= self.pending_events@);
        }
        Todo {
            id: self.id.clone(),
            title: self.title.clone(),
            completed: self.completed,
            version: self.version,
            pending_events,
        }
    }
}

impl Entity<TodoId> for Todo {
    fn id(&self) -> (id: &TodoId)
        ensures
            id@ == self@.id,
    {
        &self.id
    }
}

impl AggregateRoot<TodoId> for Todo {

}

impl RecordsDomainEvents<TodoEvent> for Todo {
    fn pull_events(&mut self) -> (events: Vec<TodoEvent>)
        ensures
            events@ == old(self)@.pending,
            pulled_from(old(self)@, final(self)@),
    {
        let mut events = Vec::new();
        std::mem::swap(&mut events, &mut self.pending_events);
        events
    }
}

/// The command that asks for a new todo.
#[derive(Debug, PartialEq, Eq)]
pub struct CreateTodo {
    pub id: String,
    pub title: String,
}

impl Clone for CreateTodo {
    fn clone(&self) -> (r: Self)
        ensures
            r == *self,
    {
        CreateTodo { id: self.id.clone(), title: self.title.clone() }
    }
}

/// The command that asks for a todo to be completed.
#[derive(Debug, PartialEq, Eq)]
pub struct CompleteTodo {
    pub id: String,
}

impl Clone for CompleteTodo {
    fn clone(&self) -> (r: Self)
        ensures
            r == *self,
    {
        CompleteTodo { id: self.id.clone() }
    }
}

/// The query for one todo.
#[derive(Debug, PartialEq, Eq)]
pub struct GetTodo {
    pub id: String,
}

impl Clone for GetTodo {
    fn clone(&self) -> (r: Self)
        ensures
            r == *self,
    {
        GetTodo { id: self.id.clone() }
    }
}

/// The query for all todos.
#[derive(Debug, Clone, Copy, PartialEq, Eq)]
pub struct ListTodos;

/// Builds todos from creation commands.
pub struct TodoBuilder;

/// `t` is the new todo that `input` asks for: trimmed identifier and title,
/// open, at version 1, having recorded its creation.
pub open spec fn build_outcome_ok(input: CreateTodo, t: Todo) -> bool {
    &&& t@.id == crate::text::trimmed(input.id@)
    &&& t@.title == crate::text::trimmed(input.title@)
    &&& !t@.completed
    &&& t@.version == 1
    &&& t@.pending.len() == 1
    &&& is_created_event(t@.pending[0], t@.id, t@.title, 1)
}

impl Builder for TodoBuilder {
    type Input = CreateTodo;

    type Output = Todo;

    fn build(&self, input: CreateTodo) -> (r: Result<Todo, AppError>)
        ensures
            match r {
                Ok(t) => {
                    &&& crate::text::trimmed(input.id@).len() > 0
                    &&& crate::text::trimmed(input.title@).len() > 0
                    &&& build_outcome_ok(input, t)
                },
                Err(e) => {
                    &&& e is Validation
                    &&& crate::text::trimmed(input.id@).len() == 0 ==> e.message_view()
                        == crate::value_objects::empty_id_message()
                    &&& crate::text::trimmed(input.id@).len() > 0 ==> crate::text::trimmed(
                        input.title@,
                    ).len() == 0 && e.message_view() == crate::value_objects::empty_title_message()
                },
            },
    {
        let id = TodoId::new(input.id.as_str())?;
        let title = TodoTitle::new(input.title.as_str())?;
        Ok(Todo::new(id, title))
    }
}

} // verus!
