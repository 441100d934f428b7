//! Knowledge Vault: the verified core of a personal book-knowledge service.
//!
//! The library holds the validation rules, the decision logic of the HTTP
//! handlers and of the background worker, the graph assembly and the
//! SurrealQL transaction builder. I/O lives in the application crate.
pub mod text;
pub mod domain;
pub mod ports;
pub mod app;
pub mod adapters;
pub mod web;
