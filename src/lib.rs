//! Session-authenticated task manager backend: the verified core.
//!
//! Storage, HTTP transport and session cookies live outside this crate; here
//! are the values they exchange, the SQL statements with their bound
//! parameters, and every decision a request handler makes.
pub mod api;
pub mod auth;
pub mod error;
pub mod ident;
pub mod query;
pub mod tasks;
pub mod text;
pub mod types;
pub mod update;
pub mod users;
