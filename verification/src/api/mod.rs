//! The HTTP surface, without the HTTP: sessions, the in-memory vault
//! manager, and what each endpoint decides and answers.

pub mod auth;
pub mod handlers;
pub mod models;
pub mod state;
