//! The transport layer's view of the catalogue.
pub mod handler;
pub mod model;
