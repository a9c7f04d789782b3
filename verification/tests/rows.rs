use todo_api::todo::domain::Todo;
use todo_api::todo::error::TodoError;
use todo_api::todo::infra::postgres_repository::{
    check_rows_affected, todo_from_row, todos_from_rows, TodoRow,
};

fn row(id: u128, title: &str, description: Option<&str>) -> TodoRow {
    TodoRow {
        id,
        title: title.to_string(),
        description: description.map(|d| d.to_string()),
        completed: id % 2 == 0,
        created_at: time::OffsetDateTime::from_unix_timestamp(1_000).unwrap(),
        updated_at: time::OffsetDateTime::from_unix_timestamp(2_000).unwrap(),
    }
}

#[test]
fn row_becomes_todo() {
    let todo = Todo::try_from(row(4, " Ler ", Some(" "))).unwrap();

    assert_eq!(todo.id().as_uuid(), 4);
    assert_eq!(todo.title().as_str(), "Ler");
    assert_eq!(todo.description().as_deref(), None);
    assert!(todo.completed());
    assert_eq!(todo.created_at().unix_timestamp(), 1_000);
    assert_eq!(todo.updated_at().unix_timestamp(), 2_000);
}

#[test]
fn row_with_bad_title_is_refused() {
    assert!(matches!(Todo::try_from(row(1, "  ", None)), Err(TodoError::InvalidTitle)));
    assert!(matches!(todo_from_row(Some(row(1, "", None))), Err(TodoError::InvalidTitle)));
    assert!(matches!(todo_from_row(None), Ok(None)));
    assert_eq!(todo_from_row(Some(row(3, "a", Some("b")))).unwrap().unwrap().id().as_uuid(), 3);
}

#[test]
fn rows_become_todos_in_order() {
    let todos = todos_from_rows(vec![row(1, "a", None), row(2, "b", Some("c")), row(3, "d", None)])
        .unwrap();

    let ids: Vec<u128> = todos.iter().map(|t| t.id().as_uuid()).collect();
    assert_eq!(ids, vec![1, 2, 3]);
    assert_eq!(todos[1].description().as_deref(), Some("c"));
    assert_eq!(todos_from_rows(Vec::new()).unwrap().len(), 0);
}

#[test]
fn first_bad_row_decides_the_error() {
    let rows = vec![row(1, "ok", None), row(2, &"x".repeat(101), None), row(3, " ", None)];

    assert!(matches!(todos_from_rows(rows), Err(TodoError::TitleTooLong)));
}

#[test]
fn no_affected_row_is_not_found() {
    assert!(matches!(check_rows_affected(0), Err(TodoError::NotFound)));
    assert!(check_rows_affected(1).is_ok());
}
