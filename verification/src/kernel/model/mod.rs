//! Identifiers, entities and events of the catalogue.
pub mod book;
pub mod checkout;
pub mod id;
pub mod list;
pub mod role;
pub mod time;
pub mod user;
