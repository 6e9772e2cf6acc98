//! The verified core of a small blogging server: validation of registrations, posts and
//! settings, password hashing and login decisions, and the decisions of the HTTP handlers.
//! The server itself (HTTP, database, sessions, files, templates) lives in `app/`.

pub mod authorization;
pub mod configuration;
pub mod domain;
pub mod routes;
pub mod text;
