use vstd::prelude::*;

verus! {

/// Why an operation on to-dos did not succeed.
#[derive(Debug, Clone, Copy, PartialEq, Eq, Structural)]
pub enum TodoError {
    NotFound,
    InvalidTitle,
    TitleTooLong,
    AlreadyCompleted,
    AlreadyOpen,
    Repository,
}

/// The message shown for each error.
pub open spec fn todo_error_message(e: TodoError) -> Seq<char> {
    match e {
        TodoError::NotFound => "tarefa não encontrada"@,
        TodoError::InvalidTitle => "o título da tarefa não pode estar vazio"@,
        TodoError::TitleTooLong => "o título da tarefa não pode ter mais de 100 caracteres"@,
        TodoError::AlreadyCompleted => "a tarefa já está concluída"@,
        TodoError::AlreadyOpen => "a tarefa já está aberta"@,
        TodoError::Repository => "erro inesperado no repositório"@,
    }
}

impl TodoError {
    /// The message shown for this error.
    pub fn message(&self) -> (m: &'static str)
        ensures
            m@ == todo_error_message(*self),
    {
        match self {
            TodoError::NotFound => "tarefa não encontrada",
            TodoError::InvalidTitle => "o título da tarefa não pode estar vazio",
            TodoError::TitleTooLong => "o título da tarefa não pode ter mais de 100 caracteres",
            TodoError::AlreadyCompleted => "a tarefa já está concluída",
            TodoError::AlreadyOpen => "a tarefa já está aberta",
            TodoError::Repository => "erro inesperado no repositório",
        }
    }
}

} // verus!
