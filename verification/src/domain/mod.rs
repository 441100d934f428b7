//! The domain model: works, users, concepts and insights.
pub mod insight;
pub mod user;
pub mod work;
pub mod concept;
