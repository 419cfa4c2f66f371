//! The todos kept in memory, by identifier: what the in-memory repository
//! reads and what committing a unit of work writes.

use vstd::prelude::*;
use crate::keyed::{Keyed, index_of_key, key_map, strictly_sorted, upsert};
use crate::todo::{Todo, TodoModel};
use crate::value_objects::TodoId;

verus! {

impl Keyed for Todo {
    open spec fn key_of(&self) -> Seq<char> {
        self@.id
    }

    fn key(&self) -> (k: &String) {
        self.id().as_string()
    }
}

/// The todo stored under `id` in `m`, if any.
pub open spec fn stored_todo(m: Map<Seq<char>, Todo>, id: Seq<char>) -> Option<TodoModel> {
    if m.contains_key(id) {
        Some(m[id]@)
    } else {
        None
    }
}

/// The todos kept in memory, ordered by identifier.
pub struct InMemoryTodoStore {
    todos: Vec<Todo>,
}

impl View for InMemoryTodoStore {
    type V = Map<Seq<char>, Todo>;

    closed spec fn view(&self) -> Map<Seq<char>, Todo> {
        key_map(self.todos@)
    }
}

impl Default for InMemoryTodoStore {
    fn default() -> (s: Self)
        ensures
            s@ == Map::<Seq<char>, Todo>::empty(),
    {
        let s = InMemoryTodoStore { todos: Vec::new() };
        proof {
            assert(s@ =~= Map::<Seq<char>, Todo>::empty());
        }
        s
    }
}

impl InMemoryTodoStore {
    #[verifier::type_invariant]
    spec fn inv(&self) -> bool {
        strictly_sorted(self.todos@)
    }

    /// Stores `todo` under its identifier, replacing the todo stored there.
    pub fn persist(&mut self, todo: Todo)
        ensures
            final(self)@ == old(self)@.insert(todo@.id, todo),
    {
        proof {
            use_type_invariant(&*self);
        }
        let mut todos = Vec::new();
        std::mem::swap(&mut todos, &mut self.todos);
        upsert(&mut todos, todo);
        self.todos = todos;
    }

    /// The todo stored under `id`, if any.
    pub fn find_by_id(&self, id: &TodoId) -> (r: Option<Todo>)
        ensures
            match r {
                Some(t) => stored_todo(self@, id@) == Some(t@),
                None => stored_todo(self@, id@) is None,
            },
    {
        proof {
            use_type_invariant(self);
        }
        match index_of_key(&self.todos, id.as_string()) {
            Some(i) => Some(self.todos[i].clone()),
            None => None,
        }
    }

    /// Every stored todo, ordered by identifier.
    pub fn list(&self) -> (r: Vec<Todo>)
        ensures
            strictly_sorted(r@),
            forall|i: int| 0 <= i < r@.len() ==> self@.contains_key(#[trigger] r@[i]@.id) && r@[i]@
                == self@[r@[i]@.id]@,
            forall|k: Seq<char>| #[trigger] self@.contains_key(k) ==> exists|i: int| 0 <= i < r@.len() && r@[i]@.id == k,
    {
        proof {
            use_type_invariant(self);
        }
        let mut out: Vec<Todo> = Vec::new();
        let mut i: usize = 0;
        while i < self.todos.len()
            invariant
                i <= self.todos@.len(),
                out@.len() == i,
                forall|j: int| 0 <= j < i ==> (#[trigger] out@[j])@ == self.todos@[j]@,
            decreases self.todos@.len() - i,
        {
            out.push(self.todos[i].clone());
            i = i + 1;
        }
        proof {
            assert forall|a: int, b: int| 0 <= a < b < out@.len() implies crate::keyed::chars_lt(
                #[trigger] out@[a].key_of(),
                #[trigger] out@[b].key_of(),
            ) by {
                assert(out@[a]@ == self.todos@[a]@);
                assert(out@[b]@ == self.todos@[b]@);
                assert(crate::keyed::chars_lt(self.todos@[a].key_of(), self.todos@[b].key_of()));
            }
            assert forall|j: int| 0 <= j < out@.len() implies self@.contains_key(#[trigger] out@[j]@.id)
                && out@[j]@ == self@[out@[j]@.id]@ by {
                crate::keyed::lemma_key_map_at(self.todos@, j);
            }
            assert forall|k: Seq<char>| #[trigger] self@.contains_key(k) implies exists|j: int| 0 <= j < out@.len() && out@[j]@.id == k by {
                let j = crate::keyed::entry_index(self.todos@, k);
                assert(out@[j]@ == self.todos@[j]@);
            }
        }
        out
    }
}

} // verus!
