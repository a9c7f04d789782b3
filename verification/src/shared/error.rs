use vstd::prelude::*;

use crate::todo::error::{todo_error_message, TodoError};

verus! {

/// An error as the HTTP layer answers it: a kind, which fixes the status, and a
/// message.
#[derive(Debug)]
pub enum AppError {
    NotFound(String),
    Validation(String),
    Conflict(String),
    Internal(String),
}

/// The HTTP status with which an error is answered.
pub open spec fn app_error_status(e: AppError) -> u16 {
    match e {
        AppError::NotFound(_) => 404,
        AppError::Validation(_) => 400,
        AppError::Conflict(_) => 409,
        AppError::Internal(_) => 500,
    }
}

/// The message with which an error is answered.
pub open spec fn app_error_message(e: AppError) -> Seq<char> {
    match e {
        AppError::NotFound(m) => m@,
        AppError::Validation(m) => m@,
        AppError::Conflict(m) => m@,
        AppError::Internal(m) => m@,
    }
}

/// The HTTP status that a to-do error is answered with: a missing to-do is not
/// found, a bad title is a bad request, a completion in the wrong state is a
/// conflict, and a storage failure is an internal error.
pub open spec fn status_for(e: TodoError) -> u16 {
    match e {
        TodoError::NotFound => 404,
        TodoError::InvalidTitle | TodoError::TitleTooLong => 400,
        TodoError::AlreadyCompleted | TodoError::AlreadyOpen => 409,
        TodoError::Repository => 500,
    }
}

impl AppError {
    /// The answer to a to-do error: its kind by `status_for`, its message the
    /// error's own.
    pub fn from(error: TodoError) -> (r: AppError)
        ensures
            app_error_status(r) == status_for(error),
            app_error_message(r) == todo_error_message(error),
    {
        let message = error.message().to_owned();
        match error {
            TodoError::NotFound => AppError::NotFound(message),
            TodoError::InvalidTitle | TodoError::TitleTooLong => AppError::Validation(message),
            TodoError::AlreadyCompleted | TodoError::AlreadyOpen => AppError::Conflict(message),
            TodoError::Repository => AppError::Internal(message),
        }
    }

    /// The HTTP status of this error.
    pub fn status_code(&self) -> (status: u16)
        ensures
            status == app_error_status(*self),
    {
        match self {
            AppError::NotFound(_) => 404,
            AppError::Validation(_) => 400,
            AppError::Conflict(_) => 409,
            AppError::Internal(_) => 500,
        }
    }

    /// What the HTTP answer is made of: the status and the message.
    pub fn into_response_parts(self) -> (r: (u16, String))
        ensures
            r.0 == app_error_status(self),
            r.1@ == app_error_message(self),
    {
        let status = self.status_code();
        match self {
            AppError::NotFound(m) => (status, m),
            AppError::Validation(m) => (status, m),
            AppError::Conflict(m) => (status, m),
            AppError::Internal(m) => (status, m),
        }
    }
}

/// Only a storage failure is answered as a server error; every other refusal is
/// the client's, and only a bad title is a bad request.
pub proof fn law_status_partition(e: TodoError)
    ensures
        status_for(e) == 400 || status_for(e) == 404 || status_for(e) == 409 || status_for(e)
            == 500,
        status_for(e) == 500 <==> e == TodoError::Repository,
        status_for(e) == 400 <==> (e == TodoError::InvalidTitle || e == TodoError::TitleTooLong),
        status_for(e) == 404 <==> e == TodoError::NotFound,
{
}

} // verus!
