//! Exact-match lexicon and terminology queries over two read-only SQLite
//! databases: request validation, the order in which a request's queries are
//! issued, and the assembly of their rows into response payloads.

pub mod config;
pub mod error;
pub mod text;
pub mod models;
pub mod rows;
pub mod routes;
pub mod properties;
