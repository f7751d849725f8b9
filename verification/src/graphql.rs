//! The GraphQL side: reading requests, the schema roots, the executor's
//! replies and the resolvers.
pub mod executor;
pub mod request;
pub mod resolvers;
pub mod schema;
pub mod types;
