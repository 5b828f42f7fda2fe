//! Tenant-isolated student records for schools, with payment reconciliation.
//!
//! Every operation on the store is stated over the store's contents as
//! sequences of records; the outside crates (password hashing, identifiers,
//! message authentication, JSON) are reached through small trusted wrappers.
pub mod errors;
pub mod logger;
pub mod models;
pub mod ids;
pub mod credentials;
pub mod store;
pub mod auth;
pub mod webhook;
pub mod payments;
pub mod laws;
