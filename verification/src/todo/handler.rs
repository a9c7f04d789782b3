//! What the HTTP handlers compute: reading a to-do's identity from the path.
use vstd::prelude::*;

use crate::shared::error::{app_error_message, app_error_status, AppError};
use super::domain::TodoId;
use super::external::{parse_uuid, parsed_uuid};

verus! {

/// The message with which a path identity that is not a UUID is refused.
pub open spec fn invalid_todo_id_message() -> Seq<char> {
    "O parâmetro 'todo_id' deve ser um UUID válido"@
}

/// The identity that a parse of the path segment gave, or a bad request where
/// the segment is not a UUID.
pub fn todo_id_from_parsed(parsed: Option<u128>) -> (r: Result<TodoId, AppError>)
    ensures
        match parsed {
            Some(bits) => r matches Ok(id) && id@ == bits,
            None => r matches Err(e) && app_error_status(e) == 400 && app_error_message(e)
                == invalid_todo_id_message(),
        },
{
    match parsed {
        Some(bits) => Ok(TodoId::from_uuid(bits)),
        None => Err(AppError::Validation("O parâmetro 'todo_id' deve ser um UUID válido".to_owned())),
    }
}

/// The identity named by a path segment, which must be a UUID.
pub fn parse_todo_id(segment: &str) -> (r: Result<TodoId, AppError>)
    ensures
        match parsed_uuid(segment@) {
            Some(bits) => r matches Ok(id) && id@ == bits,
            None => r matches Err(e) && app_error_status(e) == 400 && app_error_message(e)
                == invalid_todo_id_message(),
        },
{
    todo_id_from_parsed(parse_uuid(segment))
}

} // verus!
