//! The queries of the user table and what becomes of their rows.
use vstd::prelude::*;

use crate::database::models::users::{DbNewUser, NewUser, User, UsersFilterParams};
use crate::database::models_init::{spec_cursor, spec_limit, DBQueryResult, PagingParams};
use crate::database::queries::{timestamp_in_range, clone_text, fills_limit, generate_uuid, is_v4_uuid_text, next_cursor};
use crate::decimal::{int_text, lemma_parse_int_text};

verus! {

/// The user listing as it is sent to the database: the rows that match every
/// given filter field and were created strictly after `created_after`,
/// ordered by creation time, at most `limit` of them.
pub struct UsersQuery {
    pub active: Option<bool>,
    pub uuid: Option<String>,
    pub name: Option<String>,
    pub created_after: i64,
    pub limit: i64,
}

impl UsersQuery {
    /// The row `u` is one that the query asks for (before the limit). Texts
    /// are compared character for character, as under a binary collation;
    /// under MySQL's default case-insensitive collation the database also
    /// matches texts that differ only in letter case or trailing spaces.
    pub open spec fn selects(&self, u: User) -> bool {
        &&& (self.active matches Some(a) ==> u.active == a)
        &&& (self.uuid matches Some(x) ==> u.uuid@ == x@)
        &&& (self.name matches Some(x) ==> u.name@ == x@)
        &&& u.created_at > self.created_after
    }

    /// `rows` can be the answer to the query: selected rows in order of
    /// creation time, no more than the limit.
    pub open spec fn is_page(&self, rows: Seq<User>) -> bool {
        &&& rows.len() <= self.limit
        &&& forall|i: int| 0 <= i < rows.len() ==> self.selects(#[trigger] rows[i])
        &&& forall|i: int, j: int|
            0 <= i <= j < rows.len() ==> #[trigger] rows[i].created_at <= #[trigger] rows[j].created_at
    }

    /// `rows` is what the database answers to the query over the rows of
    /// `table`: a page that holds every selected row created before its last
    /// row, and, when it does not fill the limit, every selected row.
    pub open spec fn is_answer(&self, table: Seq<User>, rows: Seq<User>) -> bool {
        &&& self.is_page(rows)
        &&& rows.len() < self.limit ==> forall|k: int|
            0 <= k < table.len() && self.selects(#[trigger] table[k]) ==> rows.contains(table[k])
        &&& rows.len() > 0 ==> forall|k: int|
            0 <= k < table.len() && self.selects(#[trigger] table[k]) && table[k].created_at
                < rows.last().created_at ==> rows.contains(table[k])
    }
}

/// The user listing for `filter` and `paging`: the filter fields as given,
/// rows created after the paging cursor, at most the paging limit. The
/// cursor must be a time at which a date-time exists.
pub fn users_query(filter: &UsersFilterParams, paging: &PagingParams) -> (q: UsersQuery)
    requires
        timestamp_in_range(spec_cursor(paging.cursor)),
    ensures
        q.active == filter.active,
        q.uuid == filter.uuid,
        q.name == filter.name,
        q.created_after == spec_cursor(paging.cursor),
        q.limit == spec_limit(paging.limit),
{
    let limit = paging.get_limit() as i64;
    let created_after = paging.get_cursor();
    UsersQuery {
        active: filter.active,
        uuid: clone_text(&filter.uuid),
        name: clone_text(&filter.name),
        created_after,
        limit,
    }
}

/// The page made of the rows that a user listing with `limit` returned: the
/// rows themselves, the cursor after the last of them, and whether they fill
/// the limit.
pub fn users_page(items: Vec<User>, limit: i64) -> (res: DBQueryResult<User>)
    ensures
        res.items@ == items@,
        res.cursor is Some <==> items@.len() > 0,
        res.cursor matches Some(c) ==> c@ == int_text(items@.last().created_at as int),
        res.has_more == (items@.len() as i64 == limit),
{
    let last = if items.len() > 0 { Some(items[items.len() - 1].created_at) } else { None };
    let cursor = next_cursor(last);
    let has_more = fills_limit(items.len(), limit);
    DBQueryResult { items, cursor, has_more }
}

/// A user about to be inserted: a fresh UUID and the given name.
pub struct UserCreation {
    pub uuid: String,
    pub name: String,
}

impl UserCreation {
    /// Prepares the insertion of `new_user` under a freshly generated UUID.
    pub fn new(new_user: &NewUser) -> (res: UserCreation)
        ensures
            is_v4_uuid_text(res.uuid@),
            res.name@ == new_user.name@,
    {
        UserCreation { uuid: generate_uuid(), name: new_user.name.clone() }
    }

    /// The row to insert: every new user is active, whatever `active` the
    /// request carried.
    pub fn row(&self) -> (row: DbNewUser<'_>)
        ensures
            row.uuid@ == self.uuid@,
            row.name@ == self.name@,
            row.active,
    {
        DbNewUser { uuid: self.uuid.as_str(), name: self.name.as_str(), active: true }
    }
}

/// The user that a lookup by UUID found: the last of the rows, or the error
/// "No user found" when there is none.
pub fn found_user(items: Vec<User>) -> (res: Result<User, String>)
    ensures
        items@.len() > 0 ==> res == Ok::<User, String>(items@.last()),
        items@.len() == 0 ==> (res matches Err(e) && e@ == "No user found"@),
{
    let mut items = items;
    match items.pop() {
        Some(item) => Ok(item),
        None => {
            proof {
                reveal_strlit("No user found");
            }
            Err(String::from_str("No user found"))
        },
    }
}

/// The error of a failed update, given the database's description of the
/// failure.
pub fn update_failure(reason: &str) -> (msg: String)
    ensures
        msg@ == "Unable to update user "@ + reason@,
{
    String::from_str("Unable to update user ").concat(reason)
}

/// What follows an update of the user with UUID `uuid`.
pub enum AfterUpdate {
    /// The update ran: look the user up again by this UUID.
    Find(String),
    /// The update failed, with this error.
    Fail(String),
}

/// The step after an update: when it ran (whatever number of rows it
/// touched), look the user up again by the same UUID; when it failed, the
/// error names the database's description of the failure.
pub fn after_update(uuid: &str, outcome: Result<usize, String>) -> (res: AfterUpdate)
    ensures
        match outcome {
            Ok(_) => res matches AfterUpdate::Find(u) && u@ == uuid@,
            Err(e) => res matches AfterUpdate::Fail(m) && m@ == "Unable to update user "@ + e@,
        },
{
    match outcome {
        Ok(_) => AfterUpdate::Find(String::from_str(uuid)),
        Err(e) => AfterUpdate::Fail(update_failure(e.as_str())),
    }
}

/// Successive pages follow one another in time: when a page of the listing
/// is not empty and the next listing is asked with the cursor that came with
/// it (the decimal text of the last row's creation time), every row of the
/// next page was created strictly after every row of the first.
pub proof fn lemma_next_page_follows(
    q1: UsersQuery,
    rows1: Seq<User>,
    next: String,
    q2: UsersQuery,
    rows2: Seq<User>,
)
    requires
        q1.is_page(rows1),
        rows1.len() > 0,
        next@ == int_text(rows1.last().created_at as int),
        q2.created_after == spec_cursor(Some(next)),
        q2.is_page(rows2),
    ensures
        forall|i: int, j: int|
            0 <= i < rows1.len() && 0 <= j < rows2.len() ==> rows1[i].created_at
                < rows2[j].created_at,
{
    lemma_parse_int_text(rows1.last().created_at);
    assert forall|i: int, j: int|
        0 <= i < rows1.len() && 0 <= j < rows2.len() implies rows1[i].created_at
        < rows2[j].created_at by {
        assert(rows1[i].created_at <= rows1[rows1.len() - 1].created_at);
        assert(q2.selects(rows2[j]));
    }
}

/// Walking the pages skips no row, but for rows created in the same second
/// as the last row of a page: when the next listing is asked with the same
/// filter and the cursor of a non-empty page, every row that the first
/// listing selects is on the page, or is selected by the next listing, or
/// was created at the very time of the page's last row.
pub proof fn lemma_pages_skip_only_ties(
    table: Seq<User>,
    q1: UsersQuery,
    rows1: Seq<User>,
    next: String,
    q2: UsersQuery,
)
    requires
        q1.is_answer(table, rows1),
        rows1.len() > 0,
        next@ == int_text(rows1.last().created_at as int),
        q2.active == q1.active && q2.uuid == q1.uuid && q2.name == q1.name,
        q2.created_after == spec_cursor(Some(next)),
    ensures
        forall|k: int|
            0 <= k < table.len() && q1.selects(#[trigger] table[k]) ==> rows1.contains(table[k])
                || q2.selects(table[k]) || table[k].created_at == rows1.last().created_at,
{
    lemma_parse_int_text(rows1.last().created_at);
}

/// A page that does not fill its limit ends the listing: it holds every row
/// that the listing selects.
pub proof fn lemma_short_page_is_complete(table: Seq<User>, q: UsersQuery, rows: Seq<User>)
    requires
        q.is_answer(table, rows),
        rows.len() as i64 != q.limit,
    ensures
        forall|k: int| 0 <= k < table.len() && q.selects(#[trigger] table[k]) ==> rows.contains(table[k]),
{
}

} // verus!
