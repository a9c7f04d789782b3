pub mod in_memory_repository;
pub mod postgres_repository;
