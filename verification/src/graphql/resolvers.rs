//! Resolvers that look users up by identifier.
pub mod users;
