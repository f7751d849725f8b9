//! The connection type of the user listing.
use vstd::prelude::*;

use crate::database::models::users::User;
use crate::database::models_init::PageInfo;

verus! {

/// A page of users as the GraphQL `users` field returns it.
pub struct UserConnection {
    pub edges: Vec<User>,
    pub page_info: PageInfo,
    pub cursor: Option<String>,
}

} // verus!
