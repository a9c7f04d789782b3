pub mod domain;
pub mod dto;
pub mod error;
pub mod external;
pub mod repository;
pub mod text;
pub mod infra;
pub mod service;
pub mod handler;
