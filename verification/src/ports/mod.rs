//! The boundaries of the core: messaging, outside services and storage.
pub mod external;
pub mod messaging;
pub mod repository;
