//! The decisions inside the adapters to outside systems (NATS, SurrealDB, HTTP services).
pub mod nats;
pub mod surreal;
pub mod http;
pub mod gemini;
pub mod openlib;
pub mod google_books;
