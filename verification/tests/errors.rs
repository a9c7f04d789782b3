use todo_api::shared::error::AppError;
use todo_api::shared::extractors::{ValidatedJson, ValidatedPath};
use todo_api::todo::error::TodoError;
use todo_api::todo::handler::{parse_todo_id, todo_id_from_parsed};

#[test]
fn todo_errors_have_their_messages() {
    assert_eq!(TodoError::NotFound.message(), "tarefa não encontrada");
    assert_eq!(TodoError::InvalidTitle.message(), "o título da tarefa não pode estar vazio");
    assert_eq!(
        TodoError::TitleTooLong.message(),
        "o título da tarefa não pode ter mais de 100 caracteres"
    );
    assert_eq!(TodoError::AlreadyCompleted.message(), "a tarefa já está concluída");
    assert_eq!(TodoError::AlreadyOpen.message(), "a tarefa já está aberta");
    assert_eq!(TodoError::Repository.message(), "erro inesperado no repositório");
}

#[test]
fn todo_errors_map_to_http_answers() {
    let cases = [
        (TodoError::NotFound, 404),
        (TodoError::InvalidTitle, 400),
        (TodoError::TitleTooLong, 400),
        (TodoError::AlreadyCompleted, 409),
        (TodoError::AlreadyOpen, 409),
        (TodoError::Repository, 500),
    ];
    for (error, status) in cases {
        let app = AppError::from(error);
        assert_eq!(app.status_code(), status);
        let (code, message) = app.into_response_parts();
        assert_eq!(code, status);
        assert_eq!(message, error.message());
    }
    assert!(matches!(AppError::from(TodoError::NotFound), AppError::NotFound(_)));
    assert!(matches!(AppError::from(TodoError::InvalidTitle), AppError::Validation(_)));
    assert!(matches!(AppError::from(TodoError::AlreadyOpen), AppError::Conflict(_)));
    assert!(matches!(AppError::from(TodoError::Repository), AppError::Internal(_)));
}

#[test]
fn should_return_bad_request_for_invalid_todo_id() {
    let error = parse_todo_id("abc").unwrap_err();

    let (status, message) = error.into_response_parts();
    assert_eq!(status, 400);
    assert_eq!(message, "O parâmetro 'todo_id' deve ser um UUID válido");
}

#[test]
fn valid_todo_id_is_parsed() {
    let id = parse_todo_id("67e55044-10b1-426f-9247-bb680e5fe0c8").unwrap();
    assert_eq!(id.as_uuid(), 0x67e5_5044_10b1_426f_9247_bb68_0e5f_e0c8);

    let id = parse_todo_id("67e5504410b1426f9247bb680e5fe0c8").unwrap();
    assert_eq!(id.as_uuid(), 0x67e5_5044_10b1_426f_9247_bb68_0e5f_e0c8);

    assert!(todo_id_from_parsed(None).is_err());
    assert_eq!(todo_id_from_parsed(Some(5)).unwrap().as_uuid(), 5);
}

#[test]
fn rejections_name_the_problem() {
    let (status, message) = ValidatedJson::<()>::rejection("expected value").into_response_parts();
    assert_eq!(status, 400);
    assert_eq!(message, "JSON inválido: expected value");

    let (status, message) = ValidatedPath::<()>::rejection("bad uuid").into_response_parts();
    assert_eq!(status, 400);
    assert_eq!(message, "parâmetro de rota inválido: bad uuid");
}
