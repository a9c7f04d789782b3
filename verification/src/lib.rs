//! A small to-do service: validated domain values, the completion life cycle of a
//! to-do, a storage abstraction with an in-memory store, and the service that ties
//! them together. HTTP, the database and process start-up live in the `app` crate.

pub mod shared;
pub mod todo;
