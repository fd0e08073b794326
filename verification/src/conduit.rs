//! The storage adapters, one for each table, and the repository above them.

pub mod users;
pub mod followers;
pub mod favorites;
pub mod articles;
pub mod articles_repository;
