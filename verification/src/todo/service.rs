use vstd::prelude::*;

use super::domain::{
    completion, description_norm, edited, opt_string_view, reopening, title_check, Todo,
    TodoDescription, TodoId, TodoTitle, TodoView,
};
use super::dto::{CreateTodoInput, UpdateTodoInput};
use super::error::TodoError;
use super::external::is_random_uuid;
use super::text::{is_blank, lemma_trim_empty_iff_blank, trim};
use super::repository::{
    is_read_failure, lists_store, store_get, store_put, store_remove, views, Store, TodoRepository,
};

verus! {

/// `t` is what creating a to-do from `input` makes: the validated title, the
/// normalised description, open, a random identity, created when last changed.
pub open spec fn is_created_from(t: TodoView, input: CreateTodoInput) -> bool {
    &&& title_check(input.title@) == Ok::<Seq<char>, TodoError>(t.title)
    &&& t.description == description_norm(opt_string_view(input.description))
    &&& !t.completed
    &&& t.created_at == t.updated_at
    &&& is_random_uuid(t.id)
}

/// What validating the title of an edit gives: no new title where none is given,
/// else the validated title or why it is refused.
pub open spec fn update_title_check(title: Option<Seq<char>>) -> Result<Option<Seq<char>>, TodoError> {
    match title {
        Some(raw) => match title_check(raw) {
            Ok(t) => Ok(Some(t)),
            Err(e) => Err(e),
        },
        None => Ok(None),
    }
}

/// The description that an edit sets: none where none is given, else the
/// normalised one (`Some(None)` removes it).
pub open spec fn update_description(description: Option<Option<String>>) -> Option<Option<Seq<char>>> {
    match description {
        Some(d) => Some(description_norm(opt_string_view(d))),
        None => None,
    }
}

/// Builds the to-do that `input` asks for: refused with the title's error where
/// the title does not validate.
pub fn new_todo_from(input: CreateTodoInput) -> (r: Result<Todo, TodoError>)
    ensures
        match title_check(input.title@) {
            Ok(_) => r matches Ok(t) && is_created_from(t@, input),
            Err(e) => r matches Err(e2) && e2 == e,
        },
{
    let title = TodoTitle::new(input.title)?;
    let description = TodoDescription::new(input.description);
    Ok(Todo::new(title, description))
}

/// The to-do that a lookup found: its own error where the lookup failed,
/// `NotFound` where it found nothing.
pub fn found_or_not_found(found: Result<Option<Todo>, TodoError>) -> (r: Result<Todo, TodoError>)
    ensures
        match found {
            Ok(Some(t)) => r == Ok::<Todo, TodoError>(t),
            Ok(None) => r == Err::<Todo, TodoError>(TodoError::NotFound),
            Err(e) => r == Err::<Todo, TodoError>(e),
        },
{
    match found {
        Ok(Some(t)) => Ok(t),
        Ok(None) => Err(TodoError::NotFound),
        Err(e) => Err(e),
    }
}

/// The to-do that an edit stores: the lookup's own error where it failed,
/// `NotFound` where it found nothing, the
/// title's error where a new title is given and does not validate, else the found
/// to-do edited as `input` asks and stamped now.
pub fn updated_todo(found: Result<Option<Todo>, TodoError>, input: UpdateTodoInput) -> (r: Result<
    Todo,
    TodoError,
>)
    ensures
        match found {
            Err(e) => r == Err::<Todo, TodoError>(e),
            Ok(None) => r == Err::<Todo, TodoError>(TodoError::NotFound),
            Ok(Some(todo)) => match update_title_check(opt_string_view(input.title)) {
                Ok(title) => r matches Ok(t) && t@ == edited(
                    todo@,
                    title,
                    update_description(input.description),
                    t@.updated_at,
                ),
                Err(e) => r matches Err(e2) && e2 == e,
            },
        },
        found matches Ok(Some(todo)) ==> (r matches Ok(t) ==> (input.description is None
            ==> t@.description == todo@.description)),
        r matches Ok(t) ==> (input.description == Some(None::<String>) ==> t@.description is None),
        r matches Ok(t) ==> (input.description matches Some(Some(s)) ==> (is_blank(s@)
            ==> t@.description is None)),
        r matches Ok(t) ==> (input.description matches Some(Some(s)) ==> (!is_blank(s@)
            ==> t@.description == Some(trim(s@)))),
{
    let mut todo = found_or_not_found(found)?;
    let title = match input.title {
        Some(title) => Some(TodoTitle::new(title)?),
        None => None,
    };
    let description = match input.description {
        Some(d) => Some(TodoDescription::new(d)),
        None => None,
    };
    todo.update(title, description);
    Ok(todo)
}

/// The to-do that a completion stores: the lookup's own error where it failed,
/// `NotFound` where it found nothing,
/// `AlreadyCompleted` where it is completed, else the found to-do completed and
/// stamped now.
pub fn completed_todo(found: Result<Option<Todo>, TodoError>) -> (r: Result<Todo, TodoError>)
    ensures
        match found {
            Err(e) => r == Err::<Todo, TodoError>(e),
            Ok(None) => r == Err::<Todo, TodoError>(TodoError::NotFound),
            Ok(Some(todo)) => match r {
                Ok(t) => completion(todo@, t@.updated_at) == Ok::<TodoView, TodoError>(t@),
                Err(e) => completion(todo@, todo@.updated_at) == Err::<TodoView, TodoError>(e),
            },
        },
{
    let mut todo = found_or_not_found(found)?;
    todo.complete()?;
    Ok(todo)
}

/// The to-do that a reopening stores: the lookup's own error where it failed,
/// `NotFound` where it found nothing,
/// `AlreadyOpen` where it is open, else the found to-do reopened and stamped now.
pub fn reopened_todo(found: Result<Option<Todo>, TodoError>) -> (r: Result<Todo, TodoError>)
    ensures
        match found {
            Err(e) => r == Err::<Todo, TodoError>(e),
            Ok(None) => r == Err::<Todo, TodoError>(TodoError::NotFound),
            Ok(Some(todo)) => match r {
                Ok(t) => reopening(todo@, t@.updated_at) == Ok::<TodoView, TodoError>(t@),
                Err(e) => reopening(todo@, todo@.updated_at) == Err::<TodoView, TodoError>(e),
            },
        },
{
    let mut todo = found_or_not_found(found)?;
    todo.reopen()?;
    Ok(todo)
}

/// The operations on to-dos, over a store.
#[derive(Clone)]
pub struct TodoService<R> {
    repository: R,
}

impl<R: TodoRepository> TodoService<R> {
    /// What the service's store holds.
    pub closed spec fn store(&self) -> Store {
        self.repository.stored()
    }

    /// The service's store never fails in the store itself.
    pub closed spec fn store_reliable(&self) -> bool {
        self.repository.reliable()
    }

    /// The error, if any, with which the store's lookup of `id` fails in this state.
    pub closed spec fn lookup_failure(&self, id: u128) -> Option<TodoError> {
        self.repository.read_failure(id)
    }

    /// A service over `repository`.
    pub fn new(repository: R) -> (s: TodoService<R>)
        ensures
            s.store() == repository.stored(),
            s.store_reliable() == repository.reliable(),
            forall|id: u128| #[trigger] s.lookup_failure(id) == repository.read_failure(id),
    {
        TodoService { repository }
    }

    /// Validates `input`, builds a new open to-do from it and stores it. A title
    /// that does not validate is refused with its error and nothing is stored.
    pub fn create_todo(&mut self, input: CreateTodoInput) -> (r: Result<Todo, TodoError>)
        ensures
            match title_check(input.title@) {
                Err(e) => r matches Err(e2) && e2 == e && final(self).store() == old(self).store(),
                Ok(_) => match r {
                    Ok(t) => is_created_from(t@, input) && final(self).store() == store_put(
                        old(self).store(),
                        t@,
                    ),
                    Err(e) => e == TodoError::Repository && final(self).store() == old(
                        self,
                    ).store(),
                },
            },
            final(self).store_reliable() == old(self).store_reliable(),
            old(self).store_reliable() && title_check(input.title@) is Ok ==> r is Ok,
    {
        let todo = new_todo_from(input)?;
        self.repository.create(todo)
    }

    /// Every stored to-do, once each.
    pub fn list_todos(&self) -> (r: Result<Vec<Todo>, TodoError>)
        ensures
            match r {
                Ok(todos) => lists_store(views(todos@), self.store()),
                Err(e) => is_read_failure(e),
            },
            self.store_reliable() ==> r is Ok,
    {
        self.repository.find_all()
    }

    /// The to-do stored under `id`; `NotFound` when there is none.
    pub fn get_todo(&self, id: TodoId) -> (r: Result<Todo, TodoError>)
        ensures
            match r {
                Ok(t) => store_get(self.store(), id@) == Some(t@) && t@.id == id@,
                Err(e) => (e == TodoError::NotFound && store_get(self.store(), id@) == None::<
                    TodoView,
                >) || is_read_failure(e),
            },
            self.store_reliable() ==> (r is Ok <==> store_get(self.store(), id@) is Some),
            self.store_reliable() && r is Err ==> r->Err_0 == TodoError::NotFound,
            self.lookup_failure(id@) matches Some(e) ==> r == Err::<Todo, TodoError>(e),
            self.lookup_failure(id@) is None ==> (r is Ok <==> store_get(self.store(), id@) is Some),
            self.lookup_failure(id@) is None && r is Err ==> r->Err_0 == TodoError::NotFound,
    {
        let found = self.repository.find_by_id(id);
        found_or_not_found(found)
    }

    /// Edits the to-do stored under `id` as `input` asks and stores it: `NotFound`
    /// when there is none, the title's error when a new title does not validate.
    pub fn update_todo(&mut self, id: TodoId, input: UpdateTodoInput) -> (r: Result<Todo, TodoError>)
        ensures
            match r {
                Ok(t) => store_get(old(self).store(), id@) matches Some(v) && update_title_check(
                    opt_string_view(input.title),
                ) matches Ok(title) && t@ == edited(
                    v,
                    title,
                    update_description(input.description),
                    t@.updated_at,
                ) && final(self).store() == store_put(old(self).store(), t@),
                Err(e) => {
                    &&& final(self).store() == old(self).store()
                    &&& e == TodoError::NotFound ==> store_get(old(self).store(), id@) == None::<
                        TodoView,
                    >
                    &&& e != TodoError::AlreadyCompleted && e != TodoError::AlreadyOpen
                },
            },
            store_get(old(self).store(), id@) is Some && update_title_check(
                opt_string_view(input.title),
            ) is Ok ==> r is Ok || is_read_failure(r->Err_0),
            update_title_check(opt_string_view(input.title)) is Err ==> r is Err,
            final(self).store_reliable() == old(self).store_reliable(),
            old(self).store_reliable() && store_get(old(self).store(), id@) is None ==> r
                == Err::<Todo, TodoError>(TodoError::NotFound),
            old(self).store_reliable() && store_get(old(self).store(), id@) is Some
                && update_title_check(opt_string_view(input.title)) is Ok ==> r is Ok,
            old(self).store_reliable() && store_get(old(self).store(), id@) is Some ==> (
            update_title_check(opt_string_view(input.title)) matches Err(e) ==> r
                == Err::<Todo, TodoError>(e)),
            old(self).lookup_failure(id@) matches Some(e) ==> r == Err::<Todo, TodoError>(e),
            old(self).lookup_failure(id@) is None && store_get(old(self).store(), id@) is None ==> r
                == Err::<Todo, TodoError>(TodoError::NotFound),
            old(self).lookup_failure(id@) is None && store_get(old(self).store(), id@) is Some ==> (
            update_title_check(opt_string_view(input.title)) matches Err(e) ==> r
                == Err::<Todo, TodoError>(e)),
            old(self).lookup_failure(id@) is None && store_get(old(self).store(), id@) is Some
                && update_title_check(opt_string_view(input.title)) is Ok ==> r is Ok || r
                == Err::<Todo, TodoError>(TodoError::Repository),
    {
        let found = self.repository.find_by_id(id);
        let todo = updated_todo(found, input)?;
        self.repository.update(todo)
    }

    /// Removes the to-do stored under `id`; `NotFound` when there is none.
    pub fn delete_todo(&mut self, id: TodoId) -> (r: Result<(), TodoError>)
        ensures
            match r {
                Ok(_) => store_remove(old(self).store(), id@) == Ok::<Store, TodoError>(
                    final(self).store(),
                ),
                Err(e) => final(self).store() == old(self).store() && (e == TodoError::Repository
                    || store_remove(old(self).store(), id@) == Err::<Store, TodoError>(e)),
            },
            final(self).store_reliable() == old(self).store_reliable(),
            old(self).store_reliable() ==> (r is Ok <==> store_get(old(self).store(), id@) is Some),
            old(self).store_reliable() && r is Err ==> r->Err_0 == TodoError::NotFound,
    {
        self.repository.delete(id)
    }

    /// Completes the open to-do stored under `id` and stores it: `NotFound` when
    /// there is none, `AlreadyCompleted` when it is completed.
    pub fn complete_todo(&mut self, id: TodoId) -> (r: Result<Todo, TodoError>)
        ensures
            match r {
                Ok(t) => store_get(old(self).store(), id@) matches Some(v) && completion(
                    v,
                    t@.updated_at,
                ) == Ok::<TodoView, TodoError>(t@) && final(self).store() == store_put(
                    old(self).store(),
                    t@,
                ),
                Err(e) => {
                    &&& final(self).store() == old(self).store()
                    &&& e == TodoError::NotFound ==> store_get(old(self).store(), id@) == None::<
                        TodoView,
                    >
                    &&& e == TodoError::AlreadyCompleted ==> (store_get(old(self).store(), id@) matches Some(v)
                        && v.completed)
                    &&& e != TodoError::AlreadyOpen
                },
            },
            store_get(old(self).store(), id@) matches Some(v) && !v.completed ==> r is Ok
                || is_read_failure(r->Err_0),
            store_get(old(self).store(), id@) matches Some(v) && v.completed ==> r is Err,
            final(self).store_reliable() == old(self).store_reliable(),
            old(self).store_reliable() && store_get(old(self).store(), id@) is None ==> r
                == Err::<Todo, TodoError>(TodoError::NotFound),
            old(self).store_reliable() ==> (store_get(old(self).store(), id@) matches Some(v)
                && !v.completed ==> r is Ok),
            old(self).store_reliable() ==> (store_get(old(self).store(), id@) matches Some(v)
                && v.completed ==> r == Err::<Todo, TodoError>(TodoError::AlreadyCompleted)),
            old(self).lookup_failure(id@) matches Some(e) ==> r == Err::<Todo, TodoError>(e),
            old(self).lookup_failure(id@) is None && store_get(old(self).store(), id@) is None ==> r
                == Err::<Todo, TodoError>(TodoError::NotFound),
            old(self).lookup_failure(id@) is None ==> (store_get(old(self).store(), id@) matches Some(
                v,
            ) && v.completed ==> r == Err::<Todo, TodoError>(TodoError::AlreadyCompleted)),
            old(self).lookup_failure(id@) is None ==> (store_get(old(self).store(), id@) matches Some(
                v,
            ) && !v.completed ==> r is Ok || r == Err::<Todo, TodoError>(TodoError::Repository)),
    {
        let found = self.repository.find_by_id(id);
        let todo = completed_todo(found)?;
        self.repository.update(todo)
    }

    /// Reopens the completed to-do stored under `id` and stores it: `NotFound`
    /// when there is none, `AlreadyOpen` when it is open.
    pub fn reopen_todo(&mut self, id: TodoId) -> (r: Result<Todo, TodoError>)
        ensures
            match r {
                Ok(t) => store_get(old(self).store(), id@) matches Some(v) && reopening(
                    v,
                    t@.updated_at,
                ) == Ok::<TodoView, TodoError>(t@) && final(self).store() == store_put(
                    old(self).store(),
                    t@,
                ),
                Err(e) => {
                    &&& final(self).store() == old(self).store()
                    &&& e == TodoError::NotFound ==> store_get(old(self).store(), id@) == None::<
                        TodoView,
                    >
                    &&& e == TodoError::AlreadyOpen ==> (store_get(old(self).store(), id@) matches Some(v)
                        && !v.completed)
                    &&& e != TodoError::AlreadyCompleted
                },
            },
            store_get(old(self).store(), id@) matches Some(v) && v.completed ==> r is Ok
                || is_read_failure(r->Err_0),
            store_get(old(self).store(), id@) matches Some(v) && !v.completed ==> r is Err,
            final(self).store_reliable() == old(self).store_reliable(),
            old(self).store_reliable() && store_get(old(self).store(), id@) is None ==> r
                == Err::<Todo, TodoError>(TodoError::NotFound),
            old(self).store_reliable() ==> (store_get(old(self).store(), id@) matches Some(v)
                && v.completed ==> r is Ok),
            old(self).store_reliable() ==> (store_get(old(self).store(), id@) matches Some(v)
                && !v.completed ==> r == Err::<Todo, TodoError>(TodoError::AlreadyOpen)),
            old(self).lookup_failure(id@) matches Some(e) ==> r == Err::<Todo, TodoError>(e),
            old(self).lookup_failure(id@) is None && store_get(old(self).store(), id@) is None ==> r
                == Err::<Todo, TodoError>(TodoError::NotFound),
            old(self).lookup_failure(id@) is None ==> (store_get(old(self).store(), id@) matches Some(
                v,
            ) && !v.completed ==> r == Err::<Todo, TodoError>(TodoError::AlreadyOpen)),
            old(self).lookup_failure(id@) is None ==> (store_get(old(self).store(), id@) matches Some(
                v,
            ) && v.completed ==> r is Ok || r == Err::<Todo, TodoError>(TodoError::Repository)),
    {
        let found = self.repository.find_by_id(id);
        let todo = reopened_todo(found)?;
        self.repository.update(todo)
    }
}

/// What an edit does to the description: nothing given keeps it, an explicit
/// removal removes it, a blank text removes it too, and any other text replaces it,
/// trimmed, whatever its length.
pub proof fn law_update_description_exact(d: Option<Option<String>>)
    ensures
        d is None ==> update_description(d) is None,
        d == Some(None::<String>) ==> update_description(d) == Some(None::<Seq<char>>),
        d matches Some(Some(s)) ==> (is_blank(s@) ==> update_description(d) == Some(
            None::<Seq<char>>,
        )),
        d matches Some(Some(s)) ==> (!is_blank(s@) ==> update_description(d) == Some(
            Some(trim(s@)),
        )),
{
    if let Some(Some(s)) = d {
        lemma_trim_empty_iff_blank(s@);
    }
}

} // verus!
