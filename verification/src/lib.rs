//! Pagination, query and request logic of the swipe GraphQL server.
pub mod database;
pub mod decimal;
pub mod graphql;
