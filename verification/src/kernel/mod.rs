//! The domain model.
pub mod model;
