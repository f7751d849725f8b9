//! The roots of the GraphQL schema and what their fields compute around the
//! database.
use vstd::prelude::*;

use crate::database::models::users::{User, UsersFilterParams};
use crate::database::models_init::{spec_cursor, spec_limit, DBQueryResult, PageInfo, PagingParams, DEFAULT_PAGE_SIZE};
use crate::database::queries::timestamp_in_range;
use crate::database::queries::users::{users_query, UsersQuery};
use crate::graphql::schema::users::UserConnection;

verus! {

/// The root of the queries, which change nothing.
pub struct QueryRoot;

/// The root of the mutations.
pub struct MutationRoot;

impl QueryRoot {
    /// The user listing that the `users` field asks for: the filter and the
    /// paging given, each taken as its default (no filter; 20 rows from the
    /// start) when absent. The cursor must be a time at which a date-time
    /// exists.
    pub fn users_query(filter: Option<UsersFilterParams>, paging: Option<PagingParams>) -> (q:
        UsersQuery)
        requires
            timestamp_in_range(
                match paging {
                    Some(p) => spec_cursor(p.cursor),
                    None => 0,
                },
            ),
        ensures
            match filter {
                Some(f) => q.active == f.active && q.uuid == f.uuid && q.name == f.name,
                None => q.active is None && q.uuid is None && q.name is None,
            },
            match paging {
                Some(p) => q.created_after == spec_cursor(p.cursor) && q.limit == spec_limit(
                    p.limit,
                ),
                None => q.created_after == 0 && q.limit == DEFAULT_PAGE_SIZE,
            },
    {
        let filter = match filter {
            Some(f) => f,
            None => UsersFilterParams::default(),
        };
        let paging = match paging {
            Some(p) => p,
            None => PagingParams::default(),
        };
        users_query(&filter, &paging)
    }

    /// The connection that the `users` field returns for a page: its rows as
    /// edges, its cursor, and whether a next page may exist.
    pub fn user_connection(res: DBQueryResult<User>) -> (c: UserConnection)
        ensures
            c.edges@ == res.items@,
            c.cursor == res.cursor,
            c.page_info.start_cursor is None,
            c.page_info.end_cursor is None,
            c.page_info.has_next_page == res.has_more,
    {
        UserConnection {
            edges: res.items,
            page_info: PageInfo { start_cursor: None, end_cursor: None, has_next_page: res.has_more },
            cursor: res.cursor,
        }
    }
}

} // verus!
