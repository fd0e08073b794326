//! Article and profile persistence for a social blogging backend.
//!
//! - `domain`: the entities, the errors, and the two capability sets of a
//!   repository with the contract of each operation.
//! - `db`: the rows of the four tables, the mathematical model of the
//!   store's state with its integrity rules, and the store itself.
//! - `conduit`: one storage adapter for each table, and the repository
//!   that answers requests by calling them.
//! - `laws`: what holds between operations.
//! - `text`: the order on strings and the derivation of slugs.

pub mod text;
pub mod domain;
pub mod db;
pub mod conduit;
pub mod laws;
