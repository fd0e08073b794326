//! The relational store: its rows, the mathematical model of its state
//! with the integrity rules, and the executable store that refines it.

pub mod models;
pub mod state;
pub mod integrity;
pub mod store;
