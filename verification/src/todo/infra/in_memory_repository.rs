use vstd::prelude::*;
use std::collections::HashMap;
use vstd::std_specs::iter::IteratorSpec;

use crate::todo::domain::{Todo, TodoId, TodoView};
use crate::todo::error::TodoError;
use crate::todo::repository::{
    lists_store, store_get, store_put, store_remove, store_replace, views, Store, TodoRepository,
};

verus! {

broadcast use vstd::std_specs::hash::group_hash_axioms;

/// A store of to-dos kept in memory, keyed by the 128-bit value of each identity.
#[derive(Debug)]
pub struct InMemoryTodoRepository {
    todos: HashMap<u128, Todo>,
}

impl InMemoryTodoRepository {
    /// Each to-do is kept under its own identity.
    #[verifier::type_invariant]
    spec fn inv(self) -> bool {
        forall|k: u128| #[trigger] self.todos@.contains_key(k) ==> self.todos@[k]@.id == k
    }

    /// An empty store.
    pub fn new() -> (r: InMemoryTodoRepository)
        ensures
            r.stored() == Map::<u128, TodoView>::empty(),
    {
        let r = InMemoryTodoRepository { todos: HashMap::new() };
        assert(r.stored() =~= Map::<u128, TodoView>::empty());
        r
    }

    /// Moves the map out, leaving an empty one, which keeps the invariant.
    fn take_todos(&mut self) -> (m: HashMap<u128, Todo>)
        ensures
            m@ == old(self).todos@,
            final(self).todos@ == Map::<u128, Todo>::empty(),
    {
        let mut m = HashMap::new();
        std::mem::swap(&mut m, &mut self.todos);
        m
    }
}

impl Clone for InMemoryTodoRepository {
    /// A separate store holding the same to-dos.
    fn clone(&self) -> (r: Self)
        ensures
            r.stored() == self.stored(),
    {
        proof {
            use_type_invariant(self);
        }
        InMemoryTodoRepository { todos: self.todos.clone() }
    }
}

impl Default for InMemoryTodoRepository {
    /// An empty store, as `InMemoryTodoRepository::new`.
    fn default() -> (r: InMemoryTodoRepository)
        ensures
            r.stored() == Map::<u128, TodoView>::empty(),
    {
        InMemoryTodoRepository::new()
    }
}

impl TodoRepository for InMemoryTodoRepository {
    closed spec fn stored(&self) -> Store {
        self.todos@.map_values(|t: Todo| t@)
    }

    /// Memory does not fail.
    open spec fn reliable(&self) -> bool {
        true
    }

    /// A lookup in memory never fails.
    open spec fn read_failure(&self, id: u128) -> Option<TodoError> {
        None
    }

    /// Never fails.
    fn create(&mut self, todo: Todo) -> (r: Result<Todo, TodoError>)
        ensures
            r is Ok,
    {
        proof {
            use_type_invariant(&*self);
        }
        let key = todo.id().as_uuid();
        let copy = todo.clone();
        let mut todos = self.take_todos();
        todos.insert(key, copy);
        self.todos = todos;
        assert(self.stored() =~= store_put(old(self).stored(), todo@));
        Ok(todo)
    }

    /// Never fails.
    fn find_all(&self) -> (r: Result<Vec<Todo>, TodoError>)
        ensures
            r is Ok,
    {
        proof {
            use_type_invariant(self);
        }
        let ghost m = self.todos@;
        let ghost ks = vstd::std_specs::hash::spec_keys_iter(&self.todos).remaining();
        let mut out: Vec<Todo> = Vec::new();
        for k in it: self.todos.keys()
            invariant
                it.seq() == ks,
                m == self.todos@,
                forall|k: u128| #[trigger] m.contains_key(k) ==> m[k]@.id == k,
                out@.len() == it.index(),
                forall|i: int|
                    0 <= i < it.index() ==> #[trigger] out@[i]@ == m[*ks[i]]@,
        {
            let ghost i = it.index();
            assert(k == ks[i]);
            assert(ks.unref()[i] == *ks[i]);
            assert(ks.unref().to_set().contains(*ks[i]));
            match self.todos.get(k) {
                Some(t) => {
                    let ghost before = out@;
                    out.push(t.clone());
                    assert(out@[i]@ == m[*ks[i]]@);
                    assert forall|j: int| 0 <= j < i + 1 implies #[trigger] out@[j]@ == m[*ks[j]]@ by {
                        if j < i {
                            assert(out@[j] == before[j]);
                        }
                    }
                },
                None => {
                    assert(false);
                },
            }
        }
        let ghost keys = ks.unref();
        proof {
            let vs = views(out@);
            let s = self.stored();
            assert(s.dom() == m.dom());
            assert forall|i: int| 0 <= i < vs.len() implies #[trigger] store_get(s, vs[i].id) == Some(vs[i]) by {
                assert(keys[i] == *ks[i]);
                assert(keys.to_set().contains(keys[i]));
                assert(m.contains_key(keys[i]));
                assert(vs[i] == out@[i]@);
            }
            assert forall|i: int, j: int| 0 <= i < j < vs.len() implies #[trigger] vs[i].id != #[trigger] vs[j].id by {
                assert(ks.no_duplicates());
                assert(ks[i] != ks[j]);
                assert(keys[i] == *ks[i]);
                assert(keys[j] == *ks[j]);
                assert(keys.to_set().contains(keys[i]));
                assert(keys.to_set().contains(keys[j]));
                assert(vs[i] == out@[i]@);
                assert(vs[j] == out@[j]@);
            }
            assert(lists_store(vs, s));
        }
        Ok(out)
    }

    /// Never fails.
    fn find_by_id(&self, id: TodoId) -> (r: Result<Option<Todo>, TodoError>)
        ensures
            r is Ok,
    {
        proof {
            use_type_invariant(self);
        }
        match self.todos.get(&id.as_uuid()) {
            Some(t) => Ok(Some(t.clone())),
            None => Ok(None),
        }
    }

    /// Fails only with `NotFound`.
    fn update(&mut self, todo: Todo) -> (r: Result<Todo, TodoError>)
        ensures
            r is Ok || r == Err::<Todo, TodoError>(TodoError::NotFound),
    {
        proof {
            use_type_invariant(&*self);
        }
        let key = todo.id().as_uuid();
        if !self.todos.contains_key(&key) {
            return Err(TodoError::NotFound);
        }
        let copy = todo.clone();
        let mut todos = self.take_todos();
        todos.insert(key, copy);
        self.todos = todos;
        assert(self.stored() =~= old(self).stored().insert(todo@.id, todo@));
        Ok(todo)
    }

    /// Fails only with `NotFound`.
    fn delete(&mut self, id: TodoId) -> (r: Result<(), TodoError>)
        ensures
            r is Ok || r == Err::<(), TodoError>(TodoError::NotFound),
    {
        proof {
            use_type_invariant(&*self);
        }
        let key = id.as_uuid();
        let mut todos = self.take_todos();
        let removed = todos.remove(&key);
        self.todos = todos;
        match removed {
            Some(_) => {
                assert(self.stored() =~= old(self).stored().remove(id@));
                Ok(())
            },
            None => {
                assert(self.stored() =~= old(self).stored());
                Err(TodoError::NotFound)
            },
        }
    }
}

} // verus!
