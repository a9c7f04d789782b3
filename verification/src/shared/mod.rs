pub mod error;
pub mod extractors;
