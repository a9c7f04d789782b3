use vstd::prelude::*;

verus! {

/// What a client gives to create a to-do.
#[derive(Debug)]
pub struct CreateTodoInput {
    pub title: String,
    pub description: Option<String>,
}

/// What a client gives to edit a to-do: a new title, or none to keep it; a new
/// description (`Some(None)` to remove it), or none to keep it.
#[derive(Debug)]
pub struct UpdateTodoInput {
    pub title: Option<String>,
    pub description: Option<Option<String>>,
}

} // verus!
