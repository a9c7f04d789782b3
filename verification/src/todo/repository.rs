use vstd::prelude::*;

use super::domain::{Todo, TodoId, TodoView};
use super::error::TodoError;

verus! {

/// A store of to-dos, as a map from the 128-bit value of each identity to the to-do.
pub type Store = Map<u128, TodoView>;

/// The store after `t` is written under its identity.
pub open spec fn store_put(s: Store, t: TodoView) -> Store {
    s.insert(t.id, t)
}

/// What the store holds under `id`.
pub open spec fn store_get(s: Store, id: u128) -> Option<TodoView> {
    if s.contains_key(id) {
        Some(s[id])
    } else {
        None
    }
}

/// Replacing the stored to-do that has `t`'s identity: refused when there is none.
pub open spec fn store_replace(s: Store, t: TodoView) -> Result<Store, TodoError> {
    if s.contains_key(t.id) {
        Ok(s.insert(t.id, t))
    } else {
        Err(TodoError::NotFound)
    }
}

/// Removing the to-do stored under `id`: refused when there is none.
pub open spec fn store_remove(s: Store, id: u128) -> Result<Store, TodoError> {
    if s.contains_key(id) {
        Ok(s.remove(id))
    } else {
        Err(TodoError::NotFound)
    }
}

/// The views of a sequence of to-dos.
pub open spec fn views(todos: Seq<Todo>) -> Seq<TodoView> {
    todos.map_values(|t: Todo| t@)
}

/// `todos` lists the store: each stored to-do exactly once, in some order.
pub open spec fn lists_store(todos: Seq<TodoView>, s: Store) -> bool {
    &&& s.dom().finite()
    &&& todos.len() == s.dom().len()
    &&& forall|i: int|
        0 <= i < todos.len() ==> #[trigger] store_get(s, todos[i].id) == Some(todos[i])
    &&& forall|i: int, j: int|
        0 <= i < j < todos.len() ==> #[trigger] todos[i].id != #[trigger] todos[j].id
}

/// How a read of the store can fail: the store itself fails, or a stored title
/// does not validate.
pub open spec fn is_read_failure(e: TodoError) -> bool {
    ||| e == TodoError::Repository
    ||| e == TodoError::InvalidTitle
    ||| e == TodoError::TitleTooLong
}

/// Where to-dos are kept. Each method either does what the store model says or
/// fails in the store; an implementation decides whether and when it fails. A
/// store that is `reliable` never fails in the store: its reads always succeed,
/// and its writes are refused only with `NotFound`.
pub trait TodoRepository {
    /// What the store holds.
    spec fn stored(&self) -> Store;

    /// The store never fails in the store itself.
    spec fn reliable(&self) -> bool;

    /// The error, if any, with which a lookup of `id` fails in this state.
    spec fn read_failure(&self, id: u128) -> Option<TodoError>;

    /// Writes `todo` under its identity and hands it back.
    fn create(&mut self, todo: Todo) -> (r: Result<Todo, TodoError>)
        ensures
            final(self).reliable() == old(self).reliable(),
            old(self).reliable() ==> r is Ok,
            match r {
                Ok(t) => t@ == todo@ && final(self).stored() == store_put(old(self).stored(), todo@),
                Err(e) => e == TodoError::Repository && final(self).stored() == old(self).stored(),
            },
    ;

    /// Every stored to-do, once each, in an order the store chooses.
    fn find_all(&self) -> (r: Result<Vec<Todo>, TodoError>)
        ensures
            self.reliable() ==> r is Ok,
            match r {
                Ok(todos) => lists_store(views(todos@), self.stored()),
                Err(e) => is_read_failure(e),
            },
    ;

    /// The to-do stored under `id`, if any.
    fn find_by_id(&self, id: TodoId) -> (r: Result<Option<Todo>, TodoError>)
        ensures
            self.reliable() ==> r is Ok,
            match r {
                Ok(found) => self.read_failure(id@) is None && match found {
                    Some(t) => store_get(self.stored(), id@) == Some(t@) && t@.id == id@,
                    None => store_get(self.stored(), id@) == None::<TodoView>,
                },
                Err(e) => self.read_failure(id@) == Some(e) && is_read_failure(e),
            },
    ;

    /// Replaces the stored to-do that has `todo`'s identity and hands `todo`
    /// back; `NotFound` when there is none. A refused write changes nothing.
    fn update(&mut self, todo: Todo) -> (r: Result<Todo, TodoError>)
        ensures
            final(self).reliable() == old(self).reliable(),
            old(self).reliable() ==> r is Ok || r == Err::<Todo, TodoError>(TodoError::NotFound),
            match r {
                Ok(t) => t@ == todo@ && store_replace(old(self).stored(), todo@) == Ok::<Store, TodoError>(final(self).stored()),
                Err(e) => final(self).stored() == old(self).stored() && (e == TodoError::Repository
                    || store_replace(old(self).stored(), todo@) == Err::<Store, TodoError>(e)),
            },
    ;

    /// Removes the to-do stored under `id`; `NotFound` when there is none. A
    /// refused removal changes nothing.
    fn delete(&mut self, id: TodoId) -> (r: Result<(), TodoError>)
        ensures
            final(self).reliable() == old(self).reliable(),
            old(self).reliable() ==> r is Ok || r == Err::<(), TodoError>(TodoError::NotFound),
            match r {
                Ok(_) => store_remove(old(self).stored(), id@) == Ok::<Store, TodoError>(final(self).stored()),
                Err(e) => final(self).stored() == old(self).stored() && (e == TodoError::Repository
                    || store_remove(old(self).stored(), id@) == Err::<Store, TodoError>(e)),
            },
    ;
}

/// A read gives back what was last written under the same identity, and a write
/// leaves what is stored under other identities as it was.
pub proof fn law_read_after_write(s: Store, t: TodoView, id: u128)
    ensures
        store_get(store_put(s, t), t.id) == Some(t),
        id != t.id ==> store_get(store_put(s, t), id) == store_get(s, id),
{
}

/// Replacing succeeds exactly when a to-do with that identity is stored, and a
/// read then gives back the replacement.
pub proof fn law_read_after_replace(s: Store, t: TodoView)
    ensures
        store_replace(s, t) is Ok <==> store_get(s, t.id) is Some,
        store_replace(s, t) matches Ok(s2) ==> store_get(s2, t.id) == Some(t),
        store_replace(s, t) is Err ==> store_replace(s, t) == Err::<Store, TodoError>(
            TodoError::NotFound,
        ),
{
}

/// Removing succeeds exactly when a to-do with that identity is stored; after it
/// a read finds nothing and a second removal is refused with `NotFound`.
pub proof fn law_read_after_remove(s: Store, id: u128, other: u128)
    ensures
        store_remove(s, id) is Ok <==> store_get(s, id) is Some,
        store_remove(s, id) is Err ==> store_remove(s, id) == Err::<Store, TodoError>(
            TodoError::NotFound,
        ),
        store_remove(s, id) matches Ok(s2) ==> store_get(s2, id) == None::<TodoView>
            && store_remove(s2, id) == Err::<Store, TodoError>(TodoError::NotFound),
        other != id ==> (store_remove(s, id) matches Ok(s2) ==> store_get(s2, other) == store_get(
            s,
            other,
        )),
{
}

/// Writing a to-do under an identity not yet stored adds one to-do to the list;
/// writing under one already stored keeps the count.
pub proof fn law_count_after_write(s: Store, t: TodoView)
    requires
        s.dom().finite(),
    ensures
        store_get(s, t.id) is None ==> store_put(s, t).dom().len() == s.dom().len() + 1,
        store_get(s, t.id) is Some ==> store_put(s, t).dom().len() == s.dom().len(),
{
    if s.contains_key(t.id) {
        assert(s.insert(t.id, t).dom() =~= s.dom());
    }
}

} // verus!
