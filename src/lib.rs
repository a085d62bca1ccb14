//! An in-memory collection of movie records: creation with a fresh random
//! identifier, and lookup by identifier or by its textual form.

pub mod ident;
pub mod laws;
pub mod movie;
pub mod service;
pub mod store;
