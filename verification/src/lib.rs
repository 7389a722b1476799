//! Authentication core of the masked-mails service.
//!
//! The service signs its users in through an OpenID Connect provider. This
//! crate holds the rules of that sign-in: the login attempts in flight, the
//! checks on the provider's answer, the user directory, the session, and what
//! each route answers.

pub mod address;
pub mod api;
pub mod auth;
pub mod cli;
pub mod config;
pub mod directory;
pub mod domain;
pub mod error;
pub mod pending;
pub mod provider;
pub mod routes;
pub mod session;
pub mod text;
pub mod user;

pub use config::{default_db_idle_timeout, default_max_db_connections, Config};
pub use error::Error;
