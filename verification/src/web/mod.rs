//! The decisions of the HTTP layer: authentication and the request handlers.
pub mod handlers;
pub mod middleware;
