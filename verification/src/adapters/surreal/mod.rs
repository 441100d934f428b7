//! The decisions of the SurrealDB repositories: the statements they run and what they make
//! of the rows they read back.
pub mod graph_write;
pub mod graph_read;
pub mod records;
pub mod insights;
pub mod concepts;
pub mod login_attempts;
