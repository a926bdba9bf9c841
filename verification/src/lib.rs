//! The security core of a small sign-in service: salted password hashes,
//! signed and time-bounded session tokens, a credential store, and the
//! decisions that turn these into the replies of the service's endpoints.
//!
//! Nothing in this crate reads a clock, a socket or a database. The caller
//! hands in the current time, the signing secret and whatever the
//! persistence layer answered, and gets back plain values.

pub mod controllers;
pub mod errors;
pub mod models;
pub mod password;
pub mod service;
pub mod store;
pub mod token;
