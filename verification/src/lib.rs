//! A library catalogue whose books can be lent to one borrower at a time.
//!
//! The crate is organised in three layers:
//!
//! * [`kernel`] holds the domain model: identifiers, books, loans and the
//!   events that change them.
//! * [`adapter`] holds the rules of lending, the coordinator that applies
//!   them step by step to any store that is asked and answers, a store in
//!   memory with its transactions, the repositories built on that store, and
//!   what is guaranteed of them all.
//! * [`api`] holds the request and response shapes of the transport layer,
//!   their conversions to and from the domain model, and what each request
//!   does.
//!
//! Every executable function is verified against its contract.
pub mod adapter;
pub mod api;
pub mod error;
pub mod kernel;
