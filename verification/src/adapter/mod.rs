//! The rules of lending, the coordinator, the store and the repositories
//! that work on it.
pub mod coordinator;
pub mod database;
pub mod guarantees;
pub mod repository;
pub mod rules;
