//! Authentication core and request decisions of a small multi-user
//! project and task tracker: password hashing, signed session tokens,
//! identity and role extraction, and the owner-scoped CRUD rules.

pub mod decimal;
pub mod error;
pub mod password;
pub mod jwt;
pub mod guards;
pub mod models;
pub mod utils;
pub mod handlers;
pub mod routes;
