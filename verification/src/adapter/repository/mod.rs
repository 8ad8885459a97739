//! The repositories: what the rest of the system asks of the store.
pub mod book;
pub mod checkout;
