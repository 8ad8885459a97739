//! The shapes of requests and responses, and their conversions to and from
//! the domain model.
pub mod auth;
pub mod book;
pub mod checkout;
pub mod user;
