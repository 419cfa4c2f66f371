//! The state of a unit of work: the todos and event records it has staged,
//! the order it gives its events, and what it reports when it completes or
//! fails.

use vstd::prelude::*;
use crate::outbox::{TodoEventRecord, is_fresh_record};
use crate::text::{decimal, push_decimal};
use crate::todo::{Todo, TodoModel};

verus! {

/// The name of the `n`-th unit of work of a kind, such as `uow-3`.
pub fn uow_name(prefix: &str, n: u64) -> (s: String)
    ensures
        s@ == prefix@ + decimal(n as nat),
{
    let mut s = prefix.to_owned();
    push_decimal(&mut s, n);
    s
}

/// What a completed unit of work reports.
#[derive(Debug)]
pub struct UnitOfWorkCompletion {
    pub uow_id: String,
    pub persisted_todos: usize,
    pub persisted_event_ids: Vec<String>,
}

impl Clone for UnitOfWorkCompletion {
    fn clone(&self) -> (r: Self)
        ensures
            r.uow_id == self.uow_id,
            r.persisted_todos == self.persisted_todos,
            r.persisted_event_ids@ == self.persisted_event_ids@,
    {
        let mut ids: Vec<String> = Vec::new();
        let mut i: usize = 0;
        while i < self.persisted_event_ids.len()
            invariant
                i <= self.persisted_event_ids@.len(),
                ids@ == self.persisted_event_ids@.subrange(0, i as int),
            decreases self.persisted_event_ids@.len() - i,
        {
            ids.push(self.persisted_event_ids[i].clone());
            i = i + 1;
            proof {
                assert(ids@ =~= self.persisted_event_ids@.subrange(0, i as int));
            }
        }
        proof {
            assert(ids@ =~= self.persisted_event_ids@);
        }
        UnitOfWorkCompletion {
            uow_id: self.uow_id.clone(),
            persisted_todos: self.persisted_todos,
            persisted_event_ids: ids,
        }
    }
}

/// What a failed unit of work reports.
#[derive(Debug)]
pub struct UnitOfWorkFailure {
    pub uow_id: String,
    pub staged_todos: usize,
    pub staged_events: usize,
    pub reason: String,
}

impl Clone for UnitOfWorkFailure {
    fn clone(&self) -> (r: Self)
        ensures
            r == *self,
    {
        UnitOfWorkFailure {
            uow_id: self.uow_id.clone(),
            staged_todos: self.staged_todos,
            staged_events: self.staged_events,
            reason: self.reason.clone(),
        }
    }
}

/// What a unit of work holds, as mathematical values.
pub struct UowModel {
    pub id: Seq<char>,
    pub todos: Seq<Todo>,
    pub events: Seq<TodoEventRecord>,
    pub next_event_order: u64,
}

/// The events of the unit of work are numbered 1, 2, 3, ... in the order
/// they were staged, all carry its identifier, and the counter stands at the
/// last number given.
pub open spec fn orders_consecutive(m: UowModel) -> bool {
    &&& m.next_event_order == m.events.len()
    &&& forall|i: int| 0 <= i < m.events.len() ==> (#[trigger] m.events[i]).event_order == i + 1
    &&& forall|i: int| 0 <= i < m.events.len() ==> (#[trigger] m.events[i]).uow_id@ == m.id
}

/// The identifiers of `events`, in order.
pub open spec fn event_ids_of(events: Seq<TodoEventRecord>) -> Seq<Seq<char>> {
    events.map_values(|r: TodoEventRecord| r.event_id@)
}

/// The staged state of one unit of work.
pub struct UnitOfWorkState {
    id: String,
    staged_todos: Vec<Todo>,
    staged_events: Vec<TodoEventRecord>,
    next_event_order: u64,
}

impl View for UnitOfWorkState {
    type V = UowModel;

    closed spec fn view(&self) -> UowModel {
        UowModel {
            id: self.id@,
            todos: self.staged_todos@,
            events: self.staged_events@,
            next_event_order: self.next_event_order,
        }
    }
}

impl UnitOfWorkState {
    /// A unit of work named `id` with nothing staged.
    pub fn new(id: String) -> (u: Self)
        ensures
            u@ == (UowModel { id: id@, todos: Seq::empty(), events: Seq::empty(), next_event_order: 0 }),
            orders_consecutive(u@),
    {
        UnitOfWorkState { id, staged_todos: Vec::new(), staged_events: Vec::new(), next_event_order: 0 }
    }

    /// The identifier.
    pub fn id(&self) -> (s: &str)
        ensures
            s@ == self@.id,
    {
        self.id.as_str()
    }

    /// The last event number given, 0 before the first.
    pub fn last_event_order(&self) -> (n: u64)
        ensures
            n == self@.next_event_order,
    {
        self.next_event_order
    }

    /// The next event number: one more than the last one given.
    pub fn next_event_order(&mut self) -> (n: u64)
        requires
            old(self)@.next_event_order < u64::MAX,
        ensures
            n == old(self)@.next_event_order + 1,
            final(self)@ == (UowModel { next_event_order: n, ..old(self)@ }),
    {
        self.next_event_order = self.next_event_order + 1;
        self.next_event_order
    }

    /// Stages `todo` to be persisted on completion.
    pub fn stage_todo(&mut self, todo: Todo)
        ensures
            final(self)@ == (UowModel { todos: old(self)@.todos.push(todo), ..old(self)@ }),
    {
        self.staged_todos.push(todo);
    }

    /// Stages `record` to be appended to the outbox on completion.
    pub fn add_event(&mut self, record: TodoEventRecord)
        ensures
            final(self)@ == (UowModel { events: old(self)@.events.push(record), ..old(self)@ }),
    {
        self.staged_events.push(record);
    }

    /// Saves `todo` into the unit of work: its recorded events are pulled,
    /// the todo is staged without them, and each event becomes a fresh record
    /// of this unit of work, numbered on from the last event number. The new
    /// records are handed back too.
    pub fn stage_save(&mut self, todo: Todo) -> (added: Vec<TodoEventRecord>)
        requires
            old(self)@.next_event_order + todo@.pending.len() <= u64::MAX,
        ensures
            final(self)@.id == old(self)@.id,
            final(self)@.todos.len() == old(self)@.todos.len() + 1,
            final(self)@.todos.drop_last() == old(self)@.todos,
            final(self)@.todos.last()@ == (TodoModel { pending: Seq::empty(), ..todo@ }),
            final(self)@.next_event_order == old(self)@.next_event_order + todo@.pending.len(),
            final(self)@.events.len() == old(self)@.events.len() + todo@.pending.len(),
            final(self)@.events.subrange(0, old(self)@.events.len() as int) == old(self)@.events,
            forall|j: int| 0 <= j < todo@.pending.len() ==> is_fresh_record(
                #[trigger] final(self)@.events[old(self)@.events.len() + j],
                todo@.pending[j],
                old(self)@.id,
                (old(self)@.next_event_order + j + 1) as u64,
            ),
            orders_consecutive(old(self)@) ==> orders_consecutive(final(self)@),
            added@ == final(self)@.events.subrange(
                old(self)@.events.len() as int,
                final(self)@.events.len() as int,
            ),
    {
        let ghost pending = todo@.pending;
        let mut added: Vec<TodoEventRecord> = Vec::new();
        let mut todo = todo;
        let events = todo.pull_events();
        self.stage_todo(todo);
        let ghost mid = self@;
        let mut j: usize = 0;
        while j < events.len()
            invariant
                j <= events@.len(),
                events@ == pending,
                self@.id == old(self)@.id,
                self@.todos == mid.todos,
                mid.events == old(self)@.events,
                mid.next_event_order == old(self)@.next_event_order,
                old(self)@.next_event_order + events@.len() <= u64::MAX,
                self@.next_event_order == old(self)@.next_event_order + j,
                self@.events.len() == old(self)@.events.len() + j,
                self@.events.subrange(0, old(self)@.events.len() as int) == old(self)@.events,
                added@ == self@.events.subrange(old(self)@.events.len() as int, self@.events.len() as int),
                forall|k: int| 0 <= k < j ==> is_fresh_record(
                    #[trigger] self@.events[old(self)@.events.len() + k],
                    events@[k],
                    old(self)@.id,
                    (old(self)@.next_event_order + k + 1) as u64,
                ),
            decreases events@.len() - j,
        {
            let order = self.next_event_order();
            let record = TodoEventRecord::new(events[j].clone(), self.id.clone(), order);
            added.push(record.clone());
            self.add_event(record);
            j = j + 1;
            proof {
                assert(self@.events.subrange(0, old(self)@.events.len() as int) =~= old(self)@.events);
                assert(added@ =~= self@.events.subrange(old(self)@.events.len() as int, self@.events.len() as int));
            }
        }
        proof {
            if orders_consecutive(old(self)@) {
                let n = old(self)@.events.len();
                assert forall|i: int| 0 <= i < self@.events.len() implies (#[trigger] self@.events[i]).event_order
                    == i + 1 by {
                    if i < n {
                        assert(self@.events[i] == self@.events.subrange(0, n as int)[i]);
                    } else {
                        assert(is_fresh_record(self@.events[n + (i - n)], events@[i - n], old(self)@.id, (old(self)@.next_event_order + (i - n) + 1) as u64));
                    }
                }
                assert forall|i: int| 0 <= i < self@.events.len() implies (#[trigger] self@.events[i]).uow_id@
                    == self@.id by {
                    if i < n {
                        assert(self@.events[i] == self@.events.subrange(0, n as int)[i]);
                    } else {
                        assert(is_fresh_record(self@.events[n + (i - n)], events@[i - n], old(self)@.id, (old(self)@.next_event_order + (i - n) + 1) as u64));
                    }
                }
            }
        }
        added
    }

    /// What the unit of work reports when it completes: its identifier, how
    /// many todos it persisted and the identifiers of its event records.
    pub fn completion(&self) -> (c: UnitOfWorkCompletion)
        ensures
            c.uow_id@ == self@.id,
            c.persisted_todos == self@.todos.len(),
            c.persisted_event_ids@.map_values(|s: String| s@) == event_ids_of(self@.events),
            c.persisted_event_ids@.len() == self@.events.len(),
            forall|k: int| 0 <= k < self@.events.len() ==> (#[trigger] c.persisted_event_ids@[k])@
                == self@.events[k].event_id@,
    {
        let mut ids: Vec<String> = Vec::new();
        let mut i: usize = 0;
        while i < self.staged_events.len()
            invariant
                i <= self.staged_events@.len(),
                ids@.map_values(|s: String| s@) == event_ids_of(self.staged_events@.subrange(0, i as int)),
                ids@.len() == i,
                forall|k: int| 0 <= k < i ==> (#[trigger] ids@[k])@ == self.staged_events@[k].event_id@,
            decreases self.staged_events@.len() - i,
        {
            let ghost prev = ids@;
            ids.push(self.staged_events[i].event_id.clone());
            i = i + 1;
            proof {
                let a = ids@.map_values(|s: String| s@);
                let b = event_ids_of(self.staged_events@.subrange(0, i as int));
                let pa = prev.map_values(|s: String| s@);
                let pb = event_ids_of(self.staged_events@.subrange(0, i - 1));
                assert(pa == pb);
                assert(pa.len() == prev.len());
                assert(pb.len() == i - 1);
                assert(ids@ == prev.push(self.staged_events@[i - 1].event_id));
                assert(a.len() == b.len());
                assert forall|k: int| 0 <= k < a.len() implies a[k] == b[k] by {
                    if k < i - 1 {
                        assert(a[k] == pa[k]);
                        assert(b[k] == pb[k]);
                    }
                }
                assert(a =~= b);
            }
        }
        proof {
            assert(self.staged_events@.subrange(0, self.staged_events@.len() as int) =~= self.staged_events@);
        }
        UnitOfWorkCompletion {
            uow_id: self.id.clone(),
            persisted_todos: self.staged_todos.len(),
            persisted_event_ids: ids,
        }
    }

    /// What the unit of work reports when it fails for `reason`.
    pub fn failure(&self, reason: String) -> (f: UnitOfWorkFailure)
        ensures
            f.uow_id@ == self@.id,
            f.staged_todos == self@.todos.len(),
            f.staged_events == self@.events.len(),
            f.reason == reason,
    {
        UnitOfWorkFailure {
            uow_id: self.id.clone(),
            staged_todos: self.staged_todos.len(),
            staged_events: self.staged_events.len(),
            reason,
        }
    }

    /// Hands out the staged todos and records and forgets them.
    pub fn take_staged(&mut self) -> (r: (Vec<Todo>, Vec<TodoEventRecord>))
        ensures
            r.0@ == old(self)@.todos,
            r.1@ == old(self)@.events,
            final(self)@ == (UowModel { todos: Seq::empty(), events: Seq::empty(), ..old(self)@ }),
    {
        let mut todos = Vec::new();
        let mut events = Vec::new();
        std::mem::swap(&mut todos, &mut self.staged_todos);
        std::mem::swap(&mut events, &mut self.staged_events);
        (todos, events)
    }

    /// Drops everything staged.
    pub fn clear(&mut self)
        ensures
            final(self)@ == (UowModel { todos: Seq::empty(), events: Seq::empty(), ..old(self)@ }),
    {
        self.staged_todos.clear();
        self.staged_events.clear();
    }

    /// Stages, after its own, everything an inner unit of work staged.
    pub fn absorb(&mut self, inner: UnitOfWorkState)
        ensures
            final(self)@ == (UowModel {
                todos: old(self)@.todos + inner@.todos,
                events: old(self)@.events + inner@.events,
                ..old(self)@
            }),
    {
        let mut inner = inner;
        let (mut todos, mut events) = inner.take_staged();
        self.staged_todos.append(&mut todos);
        self.staged_events.append(&mut events);
    }
}

} // verus!
