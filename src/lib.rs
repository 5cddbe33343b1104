//! Authentication core of a small message board: password hashing, signed
//! session tokens, request authentication and the decisions that the
//! resource handlers make around their database statements.

pub mod decimal;
pub mod error;
pub mod password;
pub mod token;
pub mod config;
pub mod auth;
pub mod handlers;
