//! The store: four tables, the statements that read and write them, and
//! transactions that apply several statements at once.
pub mod keys;
pub mod model;
pub mod order;
pub mod store;
pub mod transaction;
