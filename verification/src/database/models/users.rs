//! Rows of the user table.
use vstd::prelude::*;

verus! {

/// Filter of the user listing: each field that is given must match.
pub struct UsersFilterParams {
    pub uuid: Option<String>,
    pub name: Option<String>,
    pub active: Option<bool>,
}

impl Default for UsersFilterParams {
    fn default() -> (res: Self)
        ensures
            res.uuid is None,
            res.name is None,
            res.active is None,
    {
        UsersFilterParams { uuid: None, name: None, active: None }
    }
}

/// A row of the user table; `created_at` and `updated_at` are timestamps in
/// seconds since the Unix epoch.
pub struct User {
    pub id: i32,
    pub uuid: String,
    pub name: String,
    pub active: bool,
    pub created_at: i64,
    pub updated_at: i64,
}

/// The columns written when a user is inserted.
pub struct DbNewUser<'a> {
    pub uuid: &'a str,
    pub name: &'a str,
    pub active: bool,
}

/// The fields of a user that a client sets, on creation and on update.
pub struct NewUser {
    pub name: String,
    pub active: bool,
}

} // verus!
