//! What the database-backed store computes: turning stored rows into to-dos and
//! reading the outcome of a statement. The statements themselves run in the
//! application, which hands the rows and counts to these functions.
use vstd::prelude::*;
use time::OffsetDateTime;

use crate::todo::domain::{
    description_norm, opt_string_view, title_check, Todo, TodoDescription, TodoId, TodoTitle,
    TodoView,
};
use crate::todo::error::TodoError;
use crate::todo::repository::views;

verus! {

broadcast use vstd::std_specs::vec::group_vec_axioms;

/// A row of the `todos` table, as read from the database; the identity is the
/// UUID's 128-bit value.
#[derive(Debug)]
pub struct TodoRow {
    pub id: u128,
    pub title: String,
    pub description: Option<String>,
    pub completed: bool,
    pub created_at: OffsetDateTime,
    pub updated_at: OffsetDateTime,
}

/// The to-do that a row stands for, or why its title is refused.
pub open spec fn row_todo(row: TodoRow) -> Result<TodoView, TodoError> {
    match title_check(row.title@) {
        Ok(title) => Ok(
            TodoView {
                id: row.id,
                title,
                description: description_norm(opt_string_view(row.description)),
                completed: row.completed,
                created_at: row.created_at,
                updated_at: row.updated_at,
            },
        ),
        Err(e) => Err(e),
    }
}

/// The to-dos that rows stand for, in order, or the error of the first row that
/// is refused.
pub open spec fn rows_todos(rows: Seq<TodoRow>) -> Result<Seq<TodoView>, TodoError>
    decreases rows.len(),
{
    if rows.len() == 0 {
        Ok(Seq::empty())
    } else {
        match rows_todos(rows.drop_last()) {
            Ok(vs) => match row_todo(rows.last()) {
                Ok(v) => Ok(vs.push(v)),
                Err(e) => Err(e),
            },
            Err(e) => Err(e),
        }
    }
}

impl Todo {
    /// The to-do that a stored row stands for: its title and description are
    /// validated again, the rest is taken as it is.
    pub fn try_from(row: TodoRow) -> (r: Result<Todo, TodoError>)
        ensures
            match row_todo(row) {
                Ok(v) => r matches Ok(t) && t@ == v,
                Err(e) => r matches Err(e2) && e2 == e,
            },
    {
        let id = TodoId::from_uuid(row.id);
        let title = TodoTitle::new(row.title)?;
        let description = TodoDescription::new(row.description);
        Ok(Todo::restore(id, title, description, row.completed, row.created_at, row.updated_at))
    }
}

/// Once a prefix of the rows is refused, all of them are, with the same error.
proof fn lemma_error_persists(all: Seq<TodoRow>, k: int)
    requires
        0 <= k <= all.len(),
        rows_todos(all.take(k)) is Err,
    ensures
        rows_todos(all) == rows_todos(all.take(k)),
    decreases all.len(),
{
    if k < all.len() {
        assert(all.drop_last().take(k) =~= all.take(k));
        lemma_error_persists(all.drop_last(), k);
    } else {
        assert(all.take(k) =~= all);
    }
}

/// The to-dos that `rows` stand for, in order; the first row that is refused
/// decides the error.
pub fn todos_from_rows(rows: Vec<TodoRow>) -> (r: Result<Vec<Todo>, TodoError>)
    ensures
        match rows_todos(rows@) {
            Ok(vs) => r matches Ok(todos) && views(todos@) == vs,
            Err(e) => r matches Err(e2) && e2 == e,
        },
{
    let ghost all = rows@;
    let mut out: Vec<Todo> = Vec::new();
    proof {
        assert(all.take(0) =~= Seq::<TodoRow>::empty());
        assert(views(out@) =~= Seq::<TodoView>::empty());
    }
    for row in it: rows.into_iter()
        invariant
            it.seq() == all,
            rows_todos(all.take(it.index())) == Ok::<Seq<TodoView>, TodoError>(views(out@)),
    {
        let ghost i = it.index();
        proof {
            assert(all.take(i + 1).drop_last() =~= all.take(i));
            assert(all.take(i + 1).last() == row);
        }
        let todo = Todo::try_from(row);
        match todo {
            Ok(t) => {
                let ghost before = out@;
                let ghost tv = t@;
                out.push(t);
                assert(views(out@) =~= views(before).push(tv));
            },
            Err(e) => {
                proof {
                    lemma_error_persists(all, i + 1);
                }
                return Err(e);
            },
        }
    }
    proof {
        assert(all.take(all.len() as int) =~= all);
    }
    Ok(out)
}

/// The to-do that an optional row stands for: none where there is no row.
pub fn todo_from_row(row: Option<TodoRow>) -> (r: Result<Option<Todo>, TodoError>)
    ensures
        match row {
            Some(row) => match row_todo(row) {
                Ok(v) => r matches Ok(Some(t)) && t@ == v,
                Err(e) => r matches Err(e2) && e2 == e,
            },
            None => r matches Ok(None),
        },
{
    match row {
        Some(row) => {
            let todo = Todo::try_from(row)?;
            Ok(Some(todo))
        },
        None => Ok(None),
    }
}

/// The outcome of a statement that changes one to-do by its identity, given how
/// many rows it affected: `NotFound` when it affected none.
pub fn check_rows_affected(rows_affected: u64) -> (r: Result<(), TodoError>)
    ensures
        rows_affected == 0 <==> r == Err::<(), TodoError>(TodoError::NotFound),
        rows_affected != 0 <==> r is Ok,
{
    if rows_affected == 0 {
        Err(TodoError::NotFound)
    } else {
        Ok(())
    }
}

} // verus!
