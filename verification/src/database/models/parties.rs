//! Rows of the party table.
use vstd::prelude::*;

verus! {

/// Filter of the party listing: each field that is given must match.
pub struct PartiesFilterParams {
    pub uuid: Option<String>,
    pub title: Option<String>,
}

impl Default for PartiesFilterParams {
    fn default() -> (res: Self)
        ensures
            res.uuid is None,
            res.title is None,
    {
        PartiesFilterParams { uuid: None, title: None }
    }
}

/// A row of the party table; `created_at` and `updated_at` are timestamps in
/// seconds since the Unix epoch.
pub struct Party {
    pub id: i32,
    pub uuid: String,
    pub title: String,
    pub created_at: i64,
    pub updated_at: i64,
}

/// The columns written when a party is inserted.
pub struct DbNewParty<'a> {
    pub uuid: &'a str,
    pub title: &'a str,
}

/// The fields of a party that a client sets, on creation and on update.
pub struct NewParty {
    pub title: String,
}

} // verus!
