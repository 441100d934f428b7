//! The decisions of the HTTP request handlers.
pub mod auth;
pub mod setup;
pub mod tokens;
pub mod works;
pub mod health;
pub mod work_detail;
pub mod graph;
pub mod pages;
