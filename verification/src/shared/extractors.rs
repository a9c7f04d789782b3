use vstd::prelude::*;

use super::error::{app_error_message, app_error_status, AppError};

verus! {

/// A JSON request body that was read and decoded.
pub struct ValidatedJson<T>(pub T);

/// A path parameter that was read and decoded.
pub struct ValidatedPath<T>(pub T);

/// The prefix of the message with which an undecodable JSON body is refused.
pub open spec fn invalid_json_prefix() -> Seq<char> {
    "JSON inválido: "@
}

/// The prefix of the message with which an undecodable path parameter is refused.
pub open spec fn invalid_path_prefix() -> Seq<char> {
    "parâmetro de rota inválido: "@
}

impl<T> ValidatedJson<T> {
    /// The answer to a body that could not be decoded, given the decoder's own
    /// explanation: a bad request whose message names the problem.
    pub fn rejection(detail: &str) -> (e: AppError)
        ensures
            app_error_status(e) == 400,
            app_error_message(e) == invalid_json_prefix() + detail@,
    {
        let message = "JSON inválido: ".to_owned().concat(detail);
        AppError::Validation(message)
    }
}

impl<T> ValidatedPath<T> {
    /// The answer to a path parameter that could not be decoded, given the
    /// decoder's own explanation: a bad request whose message names the problem.
    pub fn rejection(detail: &str) -> (e: AppError)
        ensures
            app_error_status(e) == 400,
            app_error_message(e) == invalid_path_prefix() + detail@,
    {
        let message = "parâmetro de rota inválido: ".to_owned().concat(detail);
        AppError::Validation(message)
    }
}

} // verus!
