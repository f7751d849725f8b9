//! Rows of the user and party tables and the parameters of their queries.
pub mod parties;
pub mod users;

pub use self::users::{DbNewUser, NewUser, User, UsersFilterParams};
pub use super::models_init::{DBQueryResult, PageInfo, PagingParams};
