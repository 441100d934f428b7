//! Request middleware.
pub mod auth;
pub mod security_headers;
