//! The GraphQL schema: its roots and the connection types of its listings.
pub mod parties;
pub mod users;

pub use self::users::UserConnection;
pub use super::types::{MutationRoot, QueryRoot};
