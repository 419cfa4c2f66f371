//! The read model: one view per todo, built by applying event records in
//! version order, and the counters of a projection run.

use vstd::prelude::*;
use crate::errors::AppError;
use crate::events::TodoEvent;
use crate::keyed::{Keyed, index_of_key, key_map, strictly_sorted, upsert};
use crate::outbox::TodoEventRecord;
use crate::text::{decimal, push_decimal};
use crate::todo::Todo;

verus! {

/// What a reader sees of a todo.
#[derive(Debug, PartialEq, Eq)]
pub struct TodoView {
    pub id: String,
    pub title: String,
    pub completed: bool,
    pub version: u64,
}

impl Clone for TodoView {
    fn clone(&self) -> (r: Self)
        ensures
            r == *self,
    {
        TodoView {
            id: self.id.clone(),
            title: self.title.clone(),
            completed: self.completed,
            version: self.version,
        }
    }
}

impl Keyed for TodoView {
    open spec fn key_of(&self) -> Seq<char> {
        self.id@
    }

    fn key(&self) -> (k: &String) {
        &self.id
    }
}

impl TodoView {
    /// The view of `todo` as it stands.
    pub fn from_todo(todo: &Todo) -> (v: Self)
        ensures
            v.id@ == todo@.id,
            v.title@ == todo@.title,
            v.completed == todo@.completed,
            v.version == todo@.version,
    {
        TodoView {
            id: todo.id().as_str().to_owned(),
            title: todo.title().as_str().to_owned(),
            completed: todo.is_completed(),
            version: todo.version(),
        }
    }
}

/// What applying an event to the view of its todo leads to.
pub enum Projected {
    View { id: Seq<char>, title: Seq<char>, completed: bool, version: u64 },
    NotFound { message: Seq<char> },
    Conflict { message: Seq<char> },
}

/// The message of the error returned for a creation at a version other than 1.
pub open spec fn bad_create_message(id: Seq<char>) -> Seq<char> {
    "projection create for "@ + id + " must start at version 1"@
}

/// The message of the error returned for a completion of a todo with no view.
pub open spec fn missing_view_message(id: Seq<char>) -> Seq<char> {
    "projection for todo "@ + id + " does not exist"@
}

/// The message of the error returned for a completion that does not follow the view's version.
pub open spec fn version_mismatch_message(id: Seq<char>, expected: nat, got: u64) -> Seq<char> {
    "projection version mismatch for todo "@ + id + ": expected "@ + decimal(expected) + ", got "@
        + decimal(got as nat)
}

/// Applying `payload` to `current`, the view of its todo if there is one: a
/// creation at version 1 gives a fresh open view, a completion gives the
/// current view completed at the next version.
pub open spec fn projected(current: Option<TodoView>, payload: TodoEvent) -> Projected {
    match payload {
        TodoEvent::Created { todo_id, title, version, .. } => if version != 1 {
            Projected::Conflict { message: bad_create_message(todo_id@) }
        } else {
            Projected::View { id: todo_id@, title: title@, completed: false, version: 1 }
        },
        TodoEvent::Completed { todo_id, version, .. } => match current {
            None => Projected::NotFound { message: missing_view_message(todo_id@) },
            Some(v) => if v.version + 1 != version {
                Projected::Conflict {
                    message: version_mismatch_message(todo_id@, (v.version + 1) as nat, version),
                }
            } else {
                Projected::View { id: v.id@, title: v.title@, completed: true, version }
            },
        },
    }
}

/// `r` is what `o` describes.
pub open spec fn result_is(r: Result<TodoView, AppError>, o: Projected) -> bool {
    match o {
        Projected::View { id, title, completed, version } => r matches Ok(v) && v.id@ == id
            && v.title@ == title && v.completed == completed && v.version == version,
        Projected::NotFound { message } => r matches Err(e) && e is NotFound && e.message_view()
            == message,
        Projected::Conflict { message } => r matches Err(e) && e is Conflict && e.message_view()
            == message,
    }
}

/// Applying an event can be computed: a completion needs the current version
/// to have a successor.
pub open spec fn can_project(current: Option<TodoView>, payload: TodoEvent) -> bool {
    payload is Completed && current is Some ==> current->0.version < u64::MAX
}

/// The view of the event's todo after the event, or why the event does not apply.
pub fn apply_to_view(current: Option<&TodoView>, payload: &TodoEvent) -> (r: Result<TodoView, AppError>)
    requires
        can_project(
            match current {
                Some(v) => Some(*v),
                None => None,
            },
            *payload,
        ),
    ensures
        result_is(
            r,
            projected(
                match current {
                    Some(v) => Some(*v),
                    None => None,
                },
                *payload,
            ),
        ),
{
    match payload {
        TodoEvent::Created { todo_id, title, version, .. } => {
            if *version != 1 {
                let message = String::from_str("projection create for ").concat(todo_id.as_str()).concat(
                    " must start at version 1",
                );
                return Err(AppError::Conflict { message });
            }
            Ok(
                TodoView {
                    id: todo_id.as_str().to_owned(),
                    title: title.as_str().to_owned(),
                    completed: false,
                    version: *version,
                },
            )
        },
        TodoEvent::Completed { todo_id, version, .. } => {
            match current {
                None => {
                    let message = String::from_str("projection for todo ").concat(todo_id.as_str()).concat(
                        " does not exist",
                    );
                    Err(AppError::NotFound { message })
                },
                Some(v) => {
                    let expected = v.version + 1;
                    if expected != *version {
                        let mut message = String::from_str(
                            "projection version mismatch for todo ",
                        ).concat(todo_id.as_str()).concat(": expected ");
                        push_decimal(&mut message, expected);
                        message.append(", got ");
                        push_decimal(&mut message, *version);
                        return Err(AppError::Conflict { message });
                    }
                    Ok(
                        TodoView {
                            id: v.id.clone(),
                            title: v.title.clone(),
                            completed: true,
                            version: *version,
                        },
                    )
                },
            }
        },
    }
}

/// The read model kept in memory: the views, ordered by todo identifier.
pub struct InMemoryTodoProjectionStore {
    views: Vec<TodoView>,
}

impl View for InMemoryTodoProjectionStore {
    type V = Map<Seq<char>, TodoView>;

    closed spec fn view(&self) -> Map<Seq<char>, TodoView> {
        key_map(self.views@)
    }
}

/// The view stored under `id`, if any.
pub open spec fn view_at(m: Map<Seq<char>, TodoView>, id: Seq<char>) -> Option<TodoView> {
    if m.contains_key(id) {
        Some(m[id])
    } else {
        None
    }
}

/// `after` and `r` are what applying the event of `record` to the read
/// model `before` leads to: the view `projected` describes is stored under
/// the event's todo and the other views stay; an event that does not apply
/// is refused and the read model stays as it was.
pub open spec fn applied_from(
    before: Map<Seq<char>, TodoView>,
    after: Map<Seq<char>, TodoView>,
    record: TodoEventRecord,
    r: Result<(), AppError>,
) -> bool {
        let o = projected(view_at(before, record.payload.todo_id_view()), record.payload);
        match o {
            Projected::View { id, title, completed, version } => r is Ok && after.dom()
                == before.dom().insert(record.payload.todo_id_view()) && (forall|k: Seq<char>|
                k != record.payload.todo_id_view() && before.contains_key(k) ==> #[trigger] after[k] == before[k])
                && after[record.payload.todo_id_view()].id@ == id
                && after[record.payload.todo_id_view()].title@ == title
                && after[record.payload.todo_id_view()].completed == completed
                && after[record.payload.todo_id_view()].version == version,
            Projected::NotFound { message } => r matches Err(e) && e is NotFound
                && e.message_view() == message && after == before,
            Projected::Conflict { message } => r matches Err(e) && e is Conflict
                && e.message_view() == message && after == before,
        }
}

/// Every view is stored under its own todo identifier, is at version 1 or
/// later, and is at version 2 or later once completed.
pub open spec fn views_sound(m: Map<Seq<char>, TodoView>) -> bool {
    forall|k: Seq<char>| #[trigger] m.contains_key(k) ==> m[k].id@ == k && m[k].version >= 1 && (
    m[k].completed ==> m[k].version >= 2)
}

impl Default for InMemoryTodoProjectionStore {
    fn default() -> (s: Self)
        ensures
            s@ == Map::<Seq<char>, TodoView>::empty(),
    {
        let s = InMemoryTodoProjectionStore { views: Vec::new() };
        proof {
            assert(s@ =~= Map::<Seq<char>, TodoView>::empty());
        }
        s
    }
}

impl InMemoryTodoProjectionStore {
    #[verifier::type_invariant]
    spec fn inv(&self) -> bool {
        strictly_sorted(self.views@)
    }

    /// The view of todo `id`, if there is one.
    pub fn get(&self, id: &str) -> (r: Option<TodoView>)
        ensures
            r == view_at(self@, id@),
    {
        proof {
            use_type_invariant(self);
        }
        match index_of_key(&self.views, &id.to_owned()) {
            Some(i) => Some(self.views[i].clone()),
            None => None,
        }
    }

    /// All views, ordered by todo identifier.
    pub fn list(&self) -> (r: Vec<TodoView>)
        ensures
            strictly_sorted(r@),
            key_map(r@) == self@,
    {
        proof {
            use_type_invariant(self);
        }
        let mut out: Vec<TodoView> = Vec::new();
        let mut i: usize = 0;
        while i < self.views.len()
            invariant
                i <= self.views@.len(),
                out@ == self.views@.subrange(0, i as int),
            decreases self.views@.len() - i,
        {
            out.push(self.views[i].clone());
            i = i + 1;
            proof {
                assert(out@ =~= self.views@.subrange(0, i as int));
            }
        }
        proof {
            assert(out@ =~= self.views@);
        }
        out
    }

    /// Applies the event of `record` to the view of its todo; the store is
    /// left as it was when the event does not apply.
    pub fn apply(&mut self, record: &TodoEventRecord) -> (r: Result<(), AppError>)
        requires
            can_project(view_at(old(self)@, record.payload.todo_id_view()), record.payload),
        ensures
            applied_from(old(self)@, final(self)@, *record, r),
    {
        proof {
            use_type_invariant(&*self);
        }
        let key = record.payload.todo_id().as_str().to_owned();
        let index = index_of_key(&self.views, &key);
        let outcome = match index {
            Some(i) => apply_to_view(Some(&self.views[i]), &record.payload),
            None => apply_to_view(None, &record.payload),
        };
        match outcome {
            Ok(view) => {
                proof {
                    match record.payload {
                        TodoEvent::Created { .. } => {},
                        TodoEvent::Completed { .. } => {
                            let i = index->0;
                            assert(self.views@[i as int].key_of() == key@);
                        },
                    }
                }
                let mut views = Vec::new();
                std::mem::swap(&mut views, &mut self.views);
                upsert(&mut views, view);
                self.views = views;
                Ok(())
            },
            Err(e) => Err(e),
        }
    }
}

/// The counters of one run of the relay.
#[derive(Debug, Clone, Copy, PartialEq, Eq, Structural)]
pub struct ProjectionRunStats {
    pub fetched: usize,
    pub published: usize,
    pub skipped: usize,
    pub failed: usize,
    pub dead_lettered: usize,
}

impl Default for ProjectionRunStats {
    fn default() -> (s: Self)
        ensures
            s == (ProjectionRunStats { fetched: 0, published: 0, skipped: 0, failed: 0, dead_lettered: 0 }),
    {
        ProjectionRunStats { fetched: 0, published: 0, skipped: 0, failed: 0, dead_lettered: 0 }
    }
}

/// The counters of two runs added up, field by field.
pub open spec fn merged(a: ProjectionRunStats, b: ProjectionRunStats) -> (int, int, int, int, int) {
    (
        a.fetched + b.fetched,
        a.published + b.published,
        a.skipped + b.skipped,
        a.failed + b.failed,
        a.dead_lettered + b.dead_lettered,
    )
}

/// The two runs' counters can be added up within `usize`.
pub open spec fn can_merge(a: ProjectionRunStats, b: ProjectionRunStats) -> bool {
    &&& a.fetched + b.fetched <= usize::MAX
    &&& a.published + b.published <= usize::MAX
    &&& a.skipped + b.skipped <= usize::MAX
    &&& a.failed + b.failed <= usize::MAX
    &&& a.dead_lettered + b.dead_lettered <= usize::MAX
}

impl ProjectionRunStats {
    /// Whether the run fetched nothing.
    pub fn is_empty(&self) -> (b: bool)
        ensures
            b == (self.fetched == 0),
    {
        self.fetched == 0
    }

    /// Adds `other`'s counters to these.
    pub fn merge(&mut self, other: Self)
        requires
            can_merge(*old(self), other),
        ensures
            merged(*old(self), other) == (
                final(self).fetched as int,
                final(self).published as int,
                final(self).skipped as int,
                final(self).failed as int,
                final(self).dead_lettered as int,
            ),
            final(self).fetched == old(self).fetched + other.fetched,
            final(self).published == old(self).published + other.published,
            final(self).skipped == old(self).skipped + other.skipped,
            final(self).failed == old(self).failed + other.failed,
            final(self).dead_lettered == old(self).dead_lettered + other.dead_lettered,
    {
        self.fetched = self.fetched + other.fetched;
        self.published = self.published + other.published;
        self.skipped = self.skipped + other.skipped;
        self.failed = self.failed + other.failed;
        self.dead_lettered = self.dead_lettered + other.dead_lettered;
    }
}

} // verus!
