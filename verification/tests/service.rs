use todo_api::todo::domain::{Todo, TodoDescription, TodoId, TodoTitle};
use todo_api::todo::dto::{CreateTodoInput, UpdateTodoInput};
use todo_api::todo::error::TodoError;
use todo_api::todo::infra::in_memory_repository::InMemoryTodoRepository;
use todo_api::todo::repository::TodoRepository;
use todo_api::todo::service::{
    completed_todo, found_or_not_found, new_todo_from, reopened_todo, updated_todo, TodoService,
};

fn make_service() -> TodoService<InMemoryTodoRepository> {
    let repository = InMemoryTodoRepository::new();

    TodoService::new(repository)
}

#[test]
fn service_should_create_todo() {
    let mut service = make_service();

    let input = CreateTodoInput {
        title: "Estudar Axum".to_string(),
        description: Some("Criar uma API todo list".to_string()),
    };

    let todo = service.create_todo(input).unwrap();

    assert_eq!(todo.title().as_str(), "Estudar Axum");
    assert_eq!(todo.description().as_deref(), Some("Criar uma API todo list"));
    assert!(!todo.completed());
}

#[test]
fn should_reject_todo_with_empty_title() {
    let mut service = make_service();

    let input = CreateTodoInput {
        title: "   ".to_string(),
        description: None,
    };

    let result = service.create_todo(input);

    assert!(matches!(result, Err(TodoError::InvalidTitle)));
    assert_eq!(service.list_todos().unwrap().len(), 0);
}

#[test]
fn service_should_list_todos() {
    let mut service = make_service();

    let first_input = CreateTodoInput {
        title: "Primeira tarefa".to_string(),
        description: None,
    };

    let second_input = CreateTodoInput {
        title: "Segunda tarefa".to_string(),
        description: None,
    };

    service.create_todo(first_input).unwrap();
    service.create_todo(second_input).unwrap();

    let todos = service.list_todos().unwrap();

    assert_eq!(todos.len(), 2);
}

#[test]
fn service_should_get_todo_by_id() {
    let mut service = make_service();

    let input = CreateTodoInput {
        title: "Buscar tarefa".to_string(),
        description: None,
    };

    let created_todo = service.create_todo(input).unwrap();

    let found_todo = service.get_todo(created_todo.id()).unwrap();

    assert_eq!(found_todo.id(), created_todo.id());
    assert_eq!(found_todo.title().as_str(), "Buscar tarefa");
}

#[test]
fn should_return_not_found_when_todo_does_not_exist() {
    let service = make_service();

    let result = service.get_todo(TodoId::new());

    assert!(matches!(result, Err(TodoError::NotFound)));
}

#[test]
fn service_should_update_todo() {
    let mut service = make_service();

    let input = CreateTodoInput {
        title: "Título antigo".to_string(),
        description: Some("Descrição antiga".to_string()),
    };

    let todo = service.create_todo(input).unwrap();

    let update_input = UpdateTodoInput {
        title: Some("Título novo".to_string()),
        description: Some(Some("Descrição nova".to_string())),
    };

    let updated_todo = service.update_todo(todo.id(), update_input).unwrap();

    assert_eq!(updated_todo.title().as_str(), "Título novo");
    assert_eq!(updated_todo.description().as_deref(), Some("Descrição nova"));
}

#[test]
fn should_update_only_todo_title() {
    let mut service = make_service();

    let input = CreateTodoInput {
        title: "Título antigo".to_string(),
        description: Some("Descrição original".to_string()),
    };

    let todo = service.create_todo(input).unwrap();

    let update_input = UpdateTodoInput {
        title: Some("Título novo".to_string()),
        description: None,
    };

    let updated_todo = service.update_todo(todo.id(), update_input).unwrap();

    assert_eq!(updated_todo.title().as_str(), "Título novo");
    assert_eq!(updated_todo.description().as_deref(), Some("Descrição original"));
}

#[test]
fn should_clear_todo_description() {
    let mut service = make_service();

    let input = CreateTodoInput {
        title: "Tarefa com descrição".to_string(),
        description: Some("Descrição original".to_string()),
    };

    let todo = service.create_todo(input).unwrap();

    let update_input = UpdateTodoInput {
        title: None,
        description: Some(None),
    };

    let updated_todo = service.update_todo(todo.id(), update_input).unwrap();

    assert_eq!(updated_todo.description().as_deref(), None);
}

#[test]
fn service_should_complete_todo() {
    let mut service = make_service();

    let input = CreateTodoInput {
        title: "Completar tarefa".to_string(),
        description: None,
    };

    let todo = service.create_todo(input).unwrap();

    let completed_todo = service.complete_todo(todo.id()).unwrap();

    assert!(completed_todo.completed());
}

#[test]
fn service_should_not_complete_already_completed_todo() {
    let mut service = make_service();

    let input = CreateTodoInput {
        title: "Completar tarefa".to_string(),
        description: None,
    };

    let todo = service.create_todo(input).unwrap();

    service.complete_todo(todo.id()).unwrap();

    let result = service.complete_todo(todo.id());

    assert!(matches!(result, Err(TodoError::AlreadyCompleted)));
}

#[test]
fn should_reopen_todo() {
    let mut service = make_service();

    let input = CreateTodoInput {
        title: "Reabrir tarefa".to_string(),
        description: None,
    };

    let todo = service.create_todo(input).unwrap();

    service.complete_todo(todo.id()).unwrap();

    let reopened_todo = service.reopen_todo(todo.id()).unwrap();

    assert!(!reopened_todo.completed());
}

#[test]
fn service_should_not_reopen_open_todo() {
    let mut service = make_service();

    let input = CreateTodoInput {
        title: "Tarefa aberta".to_string(),
        description: None,
    };

    let todo = service.create_todo(input).unwrap();

    let result = service.reopen_todo(todo.id());

    assert!(matches!(result, Err(TodoError::AlreadyOpen)));
}

#[test]
fn should_delete_todo() {
    let mut service = make_service();

    let input = CreateTodoInput {
        title: "Deletar tarefa".to_string(),
        description: None,
    };

    let todo = service.create_todo(input).unwrap();

    service.delete_todo(todo.id()).unwrap();

    let result = service.get_todo(todo.id());

    assert!(matches!(result, Err(TodoError::NotFound)));
}

#[test]
fn completed_state_is_stored() {
    let mut service = make_service();
    let todo = service
        .create_todo(CreateTodoInput { title: "Persistir".to_string(), description: None })
        .unwrap();

    service.complete_todo(todo.id()).unwrap();

    assert!(service.get_todo(todo.id()).unwrap().completed());
    service.reopen_todo(todo.id()).unwrap();
    assert!(!service.get_todo(todo.id()).unwrap().completed());
}

#[test]
fn operations_on_missing_todo_are_not_found() {
    let mut service = make_service();
    let id = TodoId::from_uuid(7);

    assert!(matches!(service.complete_todo(id), Err(TodoError::NotFound)));
    assert!(matches!(service.reopen_todo(id), Err(TodoError::NotFound)));
    assert!(matches!(service.delete_todo(id), Err(TodoError::NotFound)));
    let edit = UpdateTodoInput { title: Some("x".to_string()), description: None };
    assert!(matches!(service.update_todo(id, edit), Err(TodoError::NotFound)));
}

#[test]
fn not_found_comes_before_title_validation() {
    let mut service = make_service();
    let edit = UpdateTodoInput { title: Some("   ".to_string()), description: None };

    assert!(matches!(service.update_todo(TodoId::from_uuid(1), edit), Err(TodoError::NotFound)));
}

#[test]
fn invalid_new_title_leaves_stored_todo_unchanged() {
    let mut service = make_service();
    let todo = service
        .create_todo(CreateTodoInput {
            title: "Primeiro".to_string(),
            description: Some("texto".to_string()),
        })
        .unwrap();

    let edit = UpdateTodoInput {
        title: Some("x".repeat(101)),
        description: Some(None),
    };
    assert!(matches!(service.update_todo(todo.id(), edit), Err(TodoError::TitleTooLong)));

    let stored = service.get_todo(todo.id()).unwrap();
    assert_eq!(stored.title().as_str(), "Primeiro");
    assert_eq!(stored.description().as_deref(), Some("texto"));
}

#[test]
fn delete_twice_is_not_found() {
    let mut service = make_service();
    let todo = service
        .create_todo(CreateTodoInput { title: "Uma vez".to_string(), description: None })
        .unwrap();

    assert!(service.delete_todo(todo.id()).is_ok());
    assert!(matches!(service.delete_todo(todo.id()), Err(TodoError::NotFound)));
    assert_eq!(service.list_todos().unwrap().len(), 0);
}

#[test]
fn list_gives_each_todo_once() {
    let mut service = make_service();
    let mut ids = Vec::new();
    for i in 0..5 {
        let todo = service
            .create_todo(CreateTodoInput { title: format!("Tarefa {i}"), description: None })
            .unwrap();
        ids.push(todo.id());
    }

    let listed = service.list_todos().unwrap();
    assert_eq!(listed.len(), 5);
    for id in ids {
        assert_eq!(listed.iter().filter(|t| t.id() == id).count(), 1);
    }
}

#[test]
fn created_description_is_normalised() {
    let mut service = make_service();
    let todo = service
        .create_todo(CreateTodoInput {
            title: "  Com espaços  ".to_string(),
            description: Some("   ".to_string()),
        })
        .unwrap();

    assert_eq!(todo.title().as_str(), "Com espaços");
    assert_eq!(todo.description().as_deref(), None);
    assert_eq!(todo.created_at(), todo.updated_at());
}

#[test]
fn repository_update_requires_a_stored_todo() {
    let mut repository = InMemoryTodoRepository::new();
    let todo = Todo::new(TodoTitle::new("Solta".to_string()).unwrap(), TodoDescription::new(None));

    assert!(matches!(repository.update(todo.clone()), Err(TodoError::NotFound)));
    repository.create(todo.clone()).unwrap();
    assert!(repository.update(todo.clone()).is_ok());
    assert_eq!(repository.find_by_id(todo.id()).unwrap().unwrap().id(), todo.id());
    assert!(repository.delete(todo.id()).is_ok());
    assert!(repository.find_by_id(todo.id()).unwrap().is_none());
}

#[test]
fn step_functions_decide_as_the_service_does() {
    assert!(matches!(found_or_not_found(Ok(None)), Err(TodoError::NotFound)));
    assert!(matches!(
        new_todo_from(CreateTodoInput { title: "x".repeat(101), description: None }),
        Err(TodoError::TitleTooLong)
    ));

    let todo = new_todo_from(CreateTodoInput {
        title: "Base".to_string(),
        description: Some("d".to_string()),
    })
    .unwrap();
    let found = found_or_not_found(Ok(Some(todo.clone()))).unwrap();
    assert_eq!(found.id(), todo.id());

    let edited = updated_todo(
        Ok(Some(todo.clone())),
        UpdateTodoInput { title: None, description: Some(Some("  nova  ".to_string())) },
    )
    .unwrap();
    assert_eq!(edited.title().as_str(), "Base");
    assert_eq!(edited.description().as_deref(), Some("nova"));
    assert_eq!(edited.id(), todo.id());

    let refused = updated_todo(
        Ok(Some(todo.clone())),
        UpdateTodoInput { title: Some(" ".to_string()), description: None },
    );
    assert!(matches!(refused, Err(TodoError::InvalidTitle)));
    let missing = updated_todo(Ok(None), UpdateTodoInput { title: None, description: None });
    assert!(matches!(missing, Err(TodoError::NotFound)));

    let done = completed_todo(Ok(Some(todo.clone()))).unwrap();
    assert!(done.completed());
    assert!(matches!(completed_todo(Ok(Some(done.clone()))), Err(TodoError::AlreadyCompleted)));
    assert!(matches!(completed_todo(Ok(None)), Err(TodoError::NotFound)));
    let open = reopened_todo(Ok(Some(done))).unwrap();
    assert!(!open.completed());
    assert!(matches!(reopened_todo(Ok(Some(open))), Err(TodoError::AlreadyOpen)));
    assert!(matches!(reopened_todo(Ok(None)), Err(TodoError::NotFound)));
}

#[test]
fn default_repository_is_empty() {
    let repository = InMemoryTodoRepository::default();

    assert_eq!(repository.find_all().unwrap().len(), 0);
}

#[test]
fn cloned_repository_holds_the_same_todos() {
    let mut repository = InMemoryTodoRepository::new();
    let todo = Todo::new(TodoTitle::new("Copiar".to_string()).unwrap(), TodoDescription::new(None));
    repository.create(todo.clone()).unwrap();

    let copy = repository.clone();
    let found = copy.find_by_id(todo.id()).unwrap().unwrap();

    assert_eq!(found, todo);
    assert_eq!(copy.find_all().unwrap().len(), 1);
}

#[test]
fn failed_lookup_is_answered_with_its_own_error() {
    assert!(matches!(found_or_not_found(Err(TodoError::Repository)), Err(TodoError::Repository)));
    let edit = UpdateTodoInput { title: Some(" ".to_string()), description: None };
    assert!(matches!(updated_todo(Err(TodoError::Repository), edit), Err(TodoError::Repository)));
    assert!(matches!(completed_todo(Err(TodoError::TitleTooLong)), Err(TodoError::TitleTooLong)));
    assert!(matches!(reopened_todo(Err(TodoError::Repository)), Err(TodoError::Repository)));
}
