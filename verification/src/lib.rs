//! Request handling for a small user directory: create, list, read, update
//! and delete over one table of users.
//!
//! The library holds the decisions of each endpoint. Acquiring a pooled
//! connection and running a statement on it are left to the caller, who hands
//! back what happened; the functions here say which statement comes next and
//! which response is owed.

pub mod model;
pub mod response;
pub mod statement;
pub mod handlers;
pub mod table;
pub mod service;
pub mod laws;
