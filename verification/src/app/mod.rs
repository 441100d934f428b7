//! Application services: the discovery worker.
pub mod worker;
