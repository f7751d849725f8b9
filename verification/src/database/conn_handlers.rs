//! Messages handled by the database executor.
pub mod parties;
pub mod users;
